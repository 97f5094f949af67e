//! Keys, and how `wtype` is told to press them.

use vstd::prelude::*;

use crate::error::{CoreResult, DesktopError, ErrorCode, ErrorView};
use crate::text::{char_text, text_views};
use crate::tools::{Tool, ToolCommand};

verus! {

/// A key of a chord.
#[derive(Debug)]
pub enum KeyName {
    Ctrl,
    Alt,
    Shift,
    Meta,
    Enter,
    Escape,
    Tab,
    Space,
    Backspace,
    Delete,
    Home,
    End,
    PageUp,
    PageDown,
    Up,
    Down,
    Left,
    Right,
    F1,
    F2,
    F3,
    F4,
    F5,
    F6,
    F7,
    F8,
    F9,
    F10,
    F11,
    F12,
    Char(char),
    /// Any other key, by its name.
    Other(String),
}

impl KeyName {
    /// The option of `wtype` for the key and the option's value, for the keys
    /// that have a name there: `-M` holds a modifier, `-k` presses a key.
    pub open spec fn named(self) -> Option<(Seq<char>, Seq<char>)> {
        match self {
            KeyName::Ctrl => Some(("-M"@, "ctrl"@)),
            KeyName::Alt => Some(("-M"@, "alt"@)),
            KeyName::Shift => Some(("-M"@, "shift"@)),
            KeyName::Meta => Some(("-M"@, "logo"@)),
            KeyName::Enter => Some(("-k"@, "Return"@)),
            KeyName::Escape => Some(("-k"@, "Escape"@)),
            KeyName::Tab => Some(("-k"@, "Tab"@)),
            KeyName::Space => Some(("-k"@, "space"@)),
            KeyName::Backspace => Some(("-k"@, "BackSpace"@)),
            KeyName::Delete => Some(("-k"@, "Delete"@)),
            KeyName::Home => Some(("-k"@, "Home"@)),
            KeyName::End => Some(("-k"@, "End"@)),
            KeyName::PageUp => Some(("-k"@, "Page_Up"@)),
            KeyName::PageDown => Some(("-k"@, "Page_Down"@)),
            KeyName::Up => Some(("-k"@, "Up"@)),
            KeyName::Down => Some(("-k"@, "Down"@)),
            KeyName::Left => Some(("-k"@, "Left"@)),
            KeyName::Right => Some(("-k"@, "Right"@)),
            KeyName::F1 => Some(("-k"@, "F1"@)),
            KeyName::F2 => Some(("-k"@, "F2"@)),
            KeyName::F3 => Some(("-k"@, "F3"@)),
            KeyName::F4 => Some(("-k"@, "F4"@)),
            KeyName::F5 => Some(("-k"@, "F5"@)),
            KeyName::F6 => Some(("-k"@, "F6"@)),
            KeyName::F7 => Some(("-k"@, "F7"@)),
            KeyName::F8 => Some(("-k"@, "F8"@)),
            KeyName::F9 => Some(("-k"@, "F9"@)),
            KeyName::F10 => Some(("-k"@, "F10"@)),
            KeyName::F11 => Some(("-k"@, "F11"@)),
            KeyName::F12 => Some(("-k"@, "F12"@)),
            KeyName::Char(_) => None,
            KeyName::Other(_) => None,
        }
    }

    /// The arguments of `wtype` for the key. A character is typed as it is,
    /// and a key that is neither named nor a character has none.
    pub open spec fn wtype_args(self) -> Option<Seq<Seq<char>>> {
        match self {
            KeyName::Char(c) => Some(seq![seq![c]]),
            _ => match self.named() {
                Some((option, value)) => Some(seq![option, value]),
                None => None,
            },
        }
    }

    fn named_option(&self) -> (res: Option<(&'static str, &'static str)>)
        ensures
            match res {
                Some((option, value)) => self.named() == Some((option@, value@)),
                None => self.named() is None,
            },
    {
        match self {
            KeyName::Ctrl => Some(("-M", "ctrl")),
            KeyName::Alt => Some(("-M", "alt")),
            KeyName::Shift => Some(("-M", "shift")),
            KeyName::Meta => Some(("-M", "logo")),
            KeyName::Enter => Some(("-k", "Return")),
            KeyName::Escape => Some(("-k", "Escape")),
            KeyName::Tab => Some(("-k", "Tab")),
            KeyName::Space => Some(("-k", "space")),
            KeyName::Backspace => Some(("-k", "BackSpace")),
            KeyName::Delete => Some(("-k", "Delete")),
            KeyName::Home => Some(("-k", "Home")),
            KeyName::End => Some(("-k", "End")),
            KeyName::PageUp => Some(("-k", "Page_Up")),
            KeyName::PageDown => Some(("-k", "Page_Down")),
            KeyName::Up => Some(("-k", "Up")),
            KeyName::Down => Some(("-k", "Down")),
            KeyName::Left => Some(("-k", "Left")),
            KeyName::Right => Some(("-k", "Right")),
            KeyName::F1 => Some(("-k", "F1")),
            KeyName::F2 => Some(("-k", "F2")),
            KeyName::F3 => Some(("-k", "F3")),
            KeyName::F4 => Some(("-k", "F4")),
            KeyName::F5 => Some(("-k", "F5")),
            KeyName::F6 => Some(("-k", "F6")),
            KeyName::F7 => Some(("-k", "F7")),
            KeyName::F8 => Some(("-k", "F8")),
            KeyName::F9 => Some(("-k", "F9")),
            KeyName::F10 => Some(("-k", "F10")),
            KeyName::F11 => Some(("-k", "F11")),
            KeyName::F12 => Some(("-k", "F12")),
            KeyName::Char(_) => None,
            KeyName::Other(_) => None,
        }
    }
}

/// The error for a key that `wtype` cannot press.
pub open spec fn unmapped_key(name: Seq<char>) -> ErrorView {
    ErrorView {
        code: ErrorCode::InvalidKey,
        message: "wtype fallback has no mapping for key `"@ + name + "`"@,
    }
}

/// The arguments of `wtype` for a chord: those of its keys, one after the
/// other; or the error for the first key that has none.
pub open spec fn chord_args(keys: Seq<KeyName>) -> Result<Seq<Seq<char>>, ErrorView>
    decreases keys.len(),
{
    if keys.len() == 0 {
        Ok(seq![])
    } else {
        match chord_args(keys.drop_last()) {
            Err(err) => Err(err),
            Ok(args) => match keys.last() {
                KeyName::Other(name) => Err(unmapped_key(name@)),
                key => Ok(args + key.wtype_args()->0),
            },
        }
    }
}

/// The command that presses a chord, see [`chord_args`].
pub fn wtype_chord_command(keys: &[KeyName]) -> (res: CoreResult<ToolCommand>)
    ensures
        match res {
            Ok(command) => chord_args(keys@) == Ok::<Seq<Seq<char>>, ErrorView>(command@.args)
                && command@.program == "wtype"@,
            Err(err) => chord_args(keys@) == Err::<Seq<Seq<char>>, ErrorView>(err@),
        },
{
    let mut args: Vec<String> = Vec::new();
    assert(text_views(args@) =~= seq![]);
    for i in 0..keys.len()
        invariant
            chord_args(keys@.take(i as int)) == Ok::<Seq<Seq<char>>, ErrorView>(
                text_views(args@),
            ),
    {
        let ghost before = args@;
        let key = &keys[i];
        assert(keys@.take(i + 1).drop_last() =~= keys@.take(i as int));
        match key {
            KeyName::Char(c) => {
                args.push(char_text(*c));
                assert(text_views(args@) =~= text_views(before) + seq![seq![*c]]);
            },
            KeyName::Other(name) => {
                let mut message: String = "wtype fallback has no mapping for key `".to_owned();
                message.append(name.as_str());
                message.append("`");
                let err = DesktopError::new(ErrorCode::InvalidKey, message);
                proof {
                    lemma_first_error(keys@, i + 1);
                }
                return Err(err);
            },
            _ => {
                if let Some((option, value)) = key.named_option() {
                    args.push(option.to_owned());
                    args.push(value.to_owned());
                    assert(text_views(args@) =~= text_views(before) + seq![option@, value@]);
                }
            },
        }
    }
    assert(keys@.take(keys@.len() as int) =~= keys@);
    Ok(ToolCommand { program: Tool::Wtype.program().to_owned(), args })
}

/// What is wrong with the beginning of a chord is wrong with the chord.
proof fn lemma_first_error(keys: Seq<KeyName>, k: int)
    requires
        0 <= k <= keys.len(),
        chord_args(keys.take(k)) is Err,
    ensures
        chord_args(keys) == chord_args(keys.take(k)),
    decreases keys.len(),
{
    if k == keys.len() {
        assert(keys.take(k) =~= keys);
    } else {
        assert(keys.drop_last().take(k) =~= keys.take(k));
        lemma_first_error(keys.drop_last(), k);
    }
}

/// A chord is pressed exactly where each of its keys has arguments; otherwise
/// the error names the first key that has none.
pub proof fn law_chord_is_mapped_key_by_key(keys: Seq<KeyName>)
    ensures
        chord_args(keys) is Ok <==> forall|i: int|
            0 <= i < keys.len() ==> (#[trigger] keys[i]).wtype_args() is Some,
        forall|i: int|
            #![trigger keys[i]]
            0 <= i < keys.len() && keys[i].wtype_args() is None && (forall|k: int|
                0 <= k < i ==> (#[trigger] keys[k]).wtype_args() is Some) ==> chord_args(keys)
                == Err::<Seq<Seq<char>>, ErrorView>(unmapped_key(keys[i]->Other_0@)),
    decreases keys.len(),
{
    if keys.len() > 0 {
        let rest = keys.drop_last();
        law_chord_is_mapped_key_by_key(rest);
        assert(forall|i: int| 0 <= i < rest.len() ==> rest[i] == keys[i]);
        if chord_args(rest) is Err {
            let k = choose|k: int| 0 <= k < rest.len() && (#[trigger] rest[k]).wtype_args() is None;
            assert(keys[k].wtype_args() is None);
        }
    }
}

/// Two chords in a row take the arguments of the one, then of the other.
pub proof fn law_chords_join(first: Seq<KeyName>, second: Seq<KeyName>)
    requires
        chord_args(first) is Ok,
        chord_args(second) is Ok,
    ensures
        chord_args(first + second) == Ok::<Seq<Seq<char>>, ErrorView>(
            chord_args(first)->Ok_0 + chord_args(second)->Ok_0,
        ),
    decreases second.len(),
{
    if second.len() == 0 {
        assert(first + second =~= first);
        assert(chord_args(first)->Ok_0 + chord_args(second)->Ok_0 =~= chord_args(first)->Ok_0);
    } else {
        assert((first + second).drop_last() =~= first + second.drop_last());
        law_chords_join(first, second.drop_last());
        let key = second.last();
        assert((chord_args(first)->Ok_0 + chord_args(second.drop_last())->Ok_0)
            + key.wtype_args()->0 =~= chord_args(first)->Ok_0 + chord_args(second)->Ok_0);
    }
}

/// A named key alone takes exactly two arguments, an option and the key's
/// name: a modifier is held with `-M`, any other named key pressed with `-k`.
/// A character alone is one argument, and any other key is refused by name. An
/// empty chord takes no arguments.
pub proof fn law_key_alone(key: KeyName)
    ensures
        chord_args(seq![]) == Ok::<Seq<Seq<char>>, ErrorView>(seq![]),
        match key {
            KeyName::Ctrl => chord_args(seq![key]) == Ok::<Seq<Seq<char>>, ErrorView>(seq!["-M"@, "ctrl"@]),
            KeyName::Alt => chord_args(seq![key]) == Ok::<Seq<Seq<char>>, ErrorView>(seq!["-M"@, "alt"@]),
            KeyName::Shift => chord_args(seq![key]) == Ok::<Seq<Seq<char>>, ErrorView>(seq!["-M"@, "shift"@]),
            KeyName::Meta => chord_args(seq![key]) == Ok::<Seq<Seq<char>>, ErrorView>(seq!["-M"@, "logo"@]),
            KeyName::Enter => chord_args(seq![key]) == Ok::<Seq<Seq<char>>, ErrorView>(seq!["-k"@, "Return"@]),
            KeyName::Escape => chord_args(seq![key]) == Ok::<Seq<Seq<char>>, ErrorView>(seq!["-k"@, "Escape"@]),
            KeyName::Tab => chord_args(seq![key]) == Ok::<Seq<Seq<char>>, ErrorView>(seq!["-k"@, "Tab"@]),
            KeyName::Space => chord_args(seq![key]) == Ok::<Seq<Seq<char>>, ErrorView>(seq!["-k"@, "space"@]),
            KeyName::Backspace => chord_args(seq![key]) == Ok::<Seq<Seq<char>>, ErrorView>(seq!["-k"@, "BackSpace"@]),
            KeyName::Delete => chord_args(seq![key]) == Ok::<Seq<Seq<char>>, ErrorView>(seq!["-k"@, "Delete"@]),
            KeyName::Home => chord_args(seq![key]) == Ok::<Seq<Seq<char>>, ErrorView>(seq!["-k"@, "Home"@]),
            KeyName::End => chord_args(seq![key]) == Ok::<Seq<Seq<char>>, ErrorView>(seq!["-k"@, "End"@]),
            KeyName::PageUp => chord_args(seq![key]) == Ok::<Seq<Seq<char>>, ErrorView>(seq!["-k"@, "Page_Up"@]),
            KeyName::PageDown => chord_args(seq![key]) == Ok::<Seq<Seq<char>>, ErrorView>(seq!["-k"@, "Page_Down"@]),
            KeyName::Up => chord_args(seq![key]) == Ok::<Seq<Seq<char>>, ErrorView>(seq!["-k"@, "Up"@]),
            KeyName::Down => chord_args(seq![key]) == Ok::<Seq<Seq<char>>, ErrorView>(seq!["-k"@, "Down"@]),
            KeyName::Left => chord_args(seq![key]) == Ok::<Seq<Seq<char>>, ErrorView>(seq!["-k"@, "Left"@]),
            KeyName::Right => chord_args(seq![key]) == Ok::<Seq<Seq<char>>, ErrorView>(seq!["-k"@, "Right"@]),
            KeyName::F1 => chord_args(seq![key]) == Ok::<Seq<Seq<char>>, ErrorView>(seq!["-k"@, "F1"@]),
            KeyName::F2 => chord_args(seq![key]) == Ok::<Seq<Seq<char>>, ErrorView>(seq!["-k"@, "F2"@]),
            KeyName::F3 => chord_args(seq![key]) == Ok::<Seq<Seq<char>>, ErrorView>(seq!["-k"@, "F3"@]),
            KeyName::F4 => chord_args(seq![key]) == Ok::<Seq<Seq<char>>, ErrorView>(seq!["-k"@, "F4"@]),
            KeyName::F5 => chord_args(seq![key]) == Ok::<Seq<Seq<char>>, ErrorView>(seq!["-k"@, "F5"@]),
            KeyName::F6 => chord_args(seq![key]) == Ok::<Seq<Seq<char>>, ErrorView>(seq!["-k"@, "F6"@]),
            KeyName::F7 => chord_args(seq![key]) == Ok::<Seq<Seq<char>>, ErrorView>(seq!["-k"@, "F7"@]),
            KeyName::F8 => chord_args(seq![key]) == Ok::<Seq<Seq<char>>, ErrorView>(seq!["-k"@, "F8"@]),
            KeyName::F9 => chord_args(seq![key]) == Ok::<Seq<Seq<char>>, ErrorView>(seq!["-k"@, "F9"@]),
            KeyName::F10 => chord_args(seq![key]) == Ok::<Seq<Seq<char>>, ErrorView>(seq!["-k"@, "F10"@]),
            KeyName::F11 => chord_args(seq![key]) == Ok::<Seq<Seq<char>>, ErrorView>(seq!["-k"@, "F11"@]),
            KeyName::F12 => chord_args(seq![key]) == Ok::<Seq<Seq<char>>, ErrorView>(seq!["-k"@, "F12"@]),
            KeyName::Char(c) => chord_args(seq![key]) == Ok::<Seq<Seq<char>>, ErrorView>(
                seq![seq![c]],
            ),
            KeyName::Other(name) => chord_args(seq![key]) == Err::<Seq<Seq<char>>, ErrorView>(
                ErrorView {
                    code: ErrorCode::InvalidKey,
                    message: "wtype fallback has no mapping for key `"@ + name@ + "`"@,
                },
            ),
        },
{
    assert(seq![key].drop_last() =~= seq![]);
    assert(seq![key].last() == key);
    if key.wtype_args() is Some {
        assert(Seq::<Seq<char>>::empty() + key.wtype_args()->0 =~= key.wtype_args()->0);
    }
}

/// A chord is refused exactly where it holds a key that is neither named nor a
/// character, and the refusal names the first such key.
pub proof fn law_first_unknown_key_is_named(keys: Seq<KeyName>)
    ensures
        chord_args(keys) is Err <==> exists|i: int|
            0 <= i < keys.len() && #[trigger] keys[i] is Other,
        forall|i: int|
            #![trigger keys[i]]
            0 <= i < keys.len() && keys[i] is Other && (forall|k: int|
                0 <= k < i ==> !(#[trigger] keys[k] is Other)) ==> chord_args(keys) == Err::<
                Seq<Seq<char>>,
                ErrorView,
            >(
                ErrorView {
                    code: ErrorCode::InvalidKey,
                    message: "wtype fallback has no mapping for key `"@ + keys[i]->Other_0@ + "`"@,
                },
            ),
    decreases keys.len(),
{
    if keys.len() > 0 {
        let rest = keys.drop_last();
        law_first_unknown_key_is_named(rest);
        assert(forall|i: int| 0 <= i < rest.len() ==> rest[i] == keys[i]);
        if chord_args(rest) is Err {
            let k = choose|k: int| 0 <= k < rest.len() && #[trigger] rest[k] is Other;
            assert(keys[k] is Other);
        }
        if keys.last() is Other {
            assert(keys[keys.len() - 1] is Other);
        }
    }
}

} // verus!
