use vstd::prelude::*;
use vstd::string::*;

verus! {

/// Who may name a declaration: everybody, a named part of the crate, or
/// only the file that declares it.
#[derive(Debug, Clone, Copy, PartialEq, Eq, Structural)]
pub enum Visibility {
    Public,
    Restricted,
    Inherited,
}

impl Visibility {
    /// Whether everybody may name the declaration.
    pub open spec fn is_public_spec(self) -> bool {
        self == Visibility::Public
    }

    /// The keyword written before a declaration of this visibility.
    pub open spec fn keyword(self) -> Seq<char> {
        match self {
            Visibility::Public => "pub"@,
            _ => ""@,
        }
    }

    /// What stands before the keyword of a declaration of this visibility.
    pub open spec fn prefix(self) -> Seq<char> {
        match self {
            Visibility::Public => "pub "@,
            _ => Seq::empty(),
        }
    }

    /// What stands before the keyword of a declaration of this visibility:
    /// `pub` and a space for a public one, nothing otherwise.
    pub fn prefix_str(&self) -> (text: String)
        ensures
            text@ == self.prefix(),
    {
        match self {
            Visibility::Public => "pub ".to_owned(),
            _ => String::new(),
        }
    }

    /// The keyword written before a declaration of this visibility: `pub`
    /// for a public one, nothing otherwise.
    pub fn to_string(&self) -> (text: String)
        ensures
            text@ == self.keyword(),
    {
        match self {
            Visibility::Public => "pub".to_owned(),
            _ => "".to_owned(),
        }
    }
}

} // verus!
