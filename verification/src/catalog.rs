//! The catalog of plays, looked up by play identifier.

use vstd::prelude::*;
use vstd::hash_map::StringHashMap;
use crate::model::{Performance, Play, PlayView};

verus! {

/// The plays that performances can refer to, each under its identifier.
/// An identifier names at most one play.
pub struct Catalog {
    plays: StringHashMap<Play>,
}

impl View for Catalog {
    type V = Map<Seq<char>, PlayView>;

    closed spec fn view(&self) -> Map<Seq<char>, PlayView> {
        self.plays@.map_values(|play: Play| play@)
    }
}

impl Catalog {
    /// A catalog without plays.
    pub fn new() -> (catalog: Catalog)
        ensures
            catalog@ == Map::<Seq<char>, PlayView>::empty(),
    {
        Catalog { plays: StringHashMap::new() }
    }

    /// Files `play` under `id`, in place of the play that `id` named before,
    /// if there was one.
    pub fn insert(&mut self, id: String, play: Play)
        ensures
            final(self)@ == old(self)@.insert(id@, play@),
    {
        self.plays.insert(id, play);
    }

    /// Looks up the play that `id` names.
    pub fn get(&self, id: &str) -> (found: Option<&Play>)
        ensures
            match found {
                Some(play) => self@.contains_key(id@) && play@ == self@[id@],
                None => !self@.contains_key(id@),
            },
    {
        self.plays.get(id)
    }
}

/// Resolves the play that `performance` refers to.
pub fn play_for<'a>(performance: &Performance, plays: &'a Catalog) -> (play: &'a Play)
    requires
        plays@.contains_key(performance@.play_id),
    ensures
        play@ == plays@[performance@.play_id],
{
    plays.get(performance.play_id()).unwrap()
}

} // verus!
