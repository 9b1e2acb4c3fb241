//! The audience of a status, and how a position in the list of choices
//! stands for one.
use vstd::prelude::*;

verus! {

/// The audience of a published status.
///
/// The canonical ordering, in which the choices are offered, is
/// `public`, `unlisted`, `private`.
#[derive(Clone, Copy, Debug, PartialEq, Eq, Structural)]
pub enum Visibility {
    Public,
    Unlisted,
    Private,
}

/// How many visibilities there are to choose from.
pub const VISIBILITY_COUNT: usize = 3;

/// The position that a choice starts on: that of `private`.
pub const DEFAULT_VISIBILITY_INDEX: usize = 2;

impl Visibility {
    /// The visibility at a position of the canonical ordering.
    pub open spec fn at(index: int) -> Option<Visibility> {
        if index == 0 {
            Some(Visibility::Public)
        } else if index == 1 {
            Some(Visibility::Unlisted)
        } else if index == 2 {
            Some(Visibility::Private)
        } else {
            None
        }
    }

    /// The position of this visibility in the canonical ordering.
    pub open spec fn position(self) -> int {
        match self {
            Visibility::Public => 0,
            Visibility::Unlisted => 1,
            Visibility::Private => 2,
        }
    }

    /// The word that stands for this visibility on the wire.
    pub open spec fn label(self) -> Seq<char> {
        match self {
            Visibility::Public => "public"@,
            Visibility::Unlisted => "unlisted"@,
            Visibility::Private => "private"@,
        }
    }

    /// The visibility that a selected position stands for; `None` for a
    /// position past the end of the list.
    pub fn from_index(index: usize) -> (chosen: Option<Visibility>)
        ensures
            chosen == Visibility::at(index as int),
            chosen is Some <==> index < VISIBILITY_COUNT,
            chosen matches Some(v) ==> v.position() == index,
    {
        if index == 0 {
            Some(Visibility::Public)
        } else if index == 1 {
            Some(Visibility::Unlisted)
        } else if index == 2 {
            Some(Visibility::Private)
        } else {
            None
        }
    }

    /// The position of this visibility in the list of choices.
    pub fn index(self) -> (index: usize)
        ensures
            index == self.position(),
            index < VISIBILITY_COUNT,
            Visibility::at(index as int) == Some(self),
    {
        match self {
            Visibility::Public => 0,
            Visibility::Unlisted => 1,
            Visibility::Private => 2,
        }
    }

    /// The word sent to the instance for this visibility.
    pub fn as_str(self) -> (word: &'static str)
        ensures
            word@ == self.label(),
    {
        match self {
            Visibility::Public => "public",
            Visibility::Unlisted => "unlisted",
            Visibility::Private => "private",
        }
    }

    /// The choices in the canonical ordering, as they are shown to the user.
    pub fn choices() -> (words: Vec<&'static str>)
        ensures
            words@.len() == VISIBILITY_COUNT,
            forall|i: int|
                0 <= i < VISIBILITY_COUNT ==> (#[trigger] words@[i])@
                    == Visibility::at(i)->Some_0.label(),
    {
        let mut words: Vec<&'static str> = Vec::new();
        words.push(Visibility::Public.as_str());
        words.push(Visibility::Unlisted.as_str());
        words.push(Visibility::Private.as_str());
        words
    }
}

impl Default for Visibility {
    /// The visibility that a choice starts on.
    fn default() -> (v: Visibility)
        ensures
            v == Visibility::Private,
            v.position() == DEFAULT_VISIBILITY_INDEX,
    {
        Visibility::Private
    }
}

/// Every visibility has a position, every position below the count has a
/// visibility, and the two conversions undo each other.
pub proof fn lemma_visibility_positions(v: Visibility, index: int)
    ensures
        0 <= v.position() < VISIBILITY_COUNT,
        Visibility::at(v.position()) == Some(v),
        Visibility::at(index) is Some <==> 0 <= index < VISIBILITY_COUNT,
        Visibility::at(index) matches Some(w) ==> w.position() == index,
        Visibility::at(0) == Some(Visibility::Public),
        Visibility::at(1) == Some(Visibility::Unlisted),
        Visibility::at(2) == Some(Visibility::Private),
        Visibility::at(DEFAULT_VISIBILITY_INDEX as int) == Some(Visibility::Private),
{
}

} // verus!
