//! The key bindings of the interactive prompt.
use vstd::prelude::*;

verus! {

#[derive(Copy, Clone, Debug, PartialEq, Eq, Structural)]
pub enum Keybindings {
    Emacs,
    Vi,
}

impl Default for Keybindings {
    fn default() -> (keys: Keybindings)
        ensures
            keys == Keybindings::Emacs,
    {
        Keybindings::Emacs
    }
}

impl Keybindings {
    pub open spec fn text(&self) -> Seq<char> {
        match *self {
            Keybindings::Emacs => "emacs"@,
            Keybindings::Vi => "vi"@,
        }
    }

    pub fn is_vi(&self) -> (vi: bool)
        ensures
            vi == (*self == Keybindings::Vi),
            vi == (self.text() == "vi"@),
    {
        proof {
            reveal_strlit("emacs");
            reveal_strlit("vi");
            assert("emacs"@.len() != "vi"@.len());
        }
        matches!(self, Keybindings::Vi)
    }

    pub fn stringify(&self) -> (text: &str)
        ensures
            text@ == self.text(),
    {
        match self {
            Keybindings::Emacs => "emacs",
            Keybindings::Vi => "vi",
        }
    }
}

} // verus!
