//! The per-user ledger: money, catches, the equipped rod and the cast flag.

use vstd::prelude::*;
use crate::rods::{Rod, opt_view};

verus! {

/// A user's persistent record.
pub struct UserValues {
    pub fish_caught: u64,
    pub money: u64,
    /// Name of the equipped rod's type.
    pub rod_name: String,
    /// Name of the equipped rod's material, if it has one.
    pub rod_modifier: Option<String>,
    /// Set while a cast is pending.
    pub cast: bool,
    /// Names of the species this user has caught, each once.
    pub has_seen: Vec<String>,
}

/// Reasons a cast cannot start.
#[derive(Clone, Copy, Debug, PartialEq, Eq, Structural)]
pub enum CastError {
    /// The user already has a cast pending.
    AlreadyCasting,
    /// The equipped rod names a type or material that the catalog lacks.
    UnknownComponent,
}

/// Whether `seen` holds the name `name`.
pub open spec fn seen_contains(seen: Seq<String>, name: Seq<char>) -> bool {
    exists|j: int| 0 <= j < seen.len() && seen[j]@ == name
}

/// Name of the rod type every new user starts with.
pub open spec fn starter_rod_name() -> Seq<char> {
    "Stick with String"@
}

/// A copy of an optional name.
pub fn copy_name(o: &Option<String>) -> (r: Option<String>)
    ensures
        r == *o,
{
    match o {
        Some(s) => Some(s.clone()),
        None => None,
    }
}

/// Whether `seen` holds the name `name`.
pub fn contains_name(seen: &Vec<String>, name: &String) -> (r: bool)
    ensures
        r == seen_contains(seen@, name@),
{
    let mut i: usize = 0;
    while i < seen.len()
        invariant
            i <= seen@.len(),
            forall|j: int| 0 <= j < i ==> seen@[j]@ != name@,
        decreases seen.len() - i,
    {
        if seen[i] == *name {
            return true;
        }
        i = i + 1;
    }
    false
}

impl UserValues {
    /// The ledger with its cast flag set to `casting`, all else unchanged.
    pub open spec fn with_cast(self, casting: bool) -> UserValues {
        UserValues { cast: casting, ..self }
    }

    /// The equipped rod.
    pub fn get_rod(&self) -> (r: Rod)
        ensures
            r.rod_type@ == self.rod_name@,
            r.material_name() == opt_view(self.rod_modifier),
    {
        Rod { rod_type: self.rod_name.clone(), material: copy_name(&self.rod_modifier) }
    }

    /// A copy of this ledger.
    pub fn duplicate(&self) -> (r: UserValues)
        ensures
            r.fish_caught == self.fish_caught,
            r.money == self.money,
            r.rod_name == self.rod_name,
            r.rod_modifier == self.rod_modifier,
            r.cast == self.cast,
            r.has_seen@ == self.has_seen@,
    {
        let mut seen: Vec<String> = Vec::new();
        let mut i: usize = 0;
        while i < self.has_seen.len()
            invariant
                i <= self.has_seen@.len(),
                seen@ == self.has_seen@.subrange(0, i as int),
            decreases self.has_seen.len() - i,
        {
            seen.push(self.has_seen[i].clone());
            i = i + 1;
            assert(seen@ =~= self.has_seen@.subrange(0, i as int));
        }
        assert(seen@ =~= self.has_seen@);
        UserValues {
            fish_caught: self.fish_caught,
            money: self.money,
            rod_name: self.rod_name.clone(),
            rod_modifier: copy_name(&self.rod_modifier),
            cast: self.cast,
            has_seen: seen,
        }
    }

    /// Starts a cast: refused while one is pending, otherwise the cast flag
    /// is set and nothing else changes.
    pub fn start_cast(&mut self) -> (r: Result<(), CastError>)
        ensures
            old(self).cast ==> r == Err::<(), CastError>(CastError::AlreadyCasting) && *final(self) == *old(self),
            !old(self).cast ==> r is Ok && *final(self) == old(self).with_cast(true),
    {
        if self.cast {
            return Err(CastError::AlreadyCasting);
        }
        self.cast = true;
        Ok(())
    }

    /// Clears the cast flag, dropping whatever cast was pending; doing it
    /// again changes nothing more.
    pub fn clear_cast(&mut self)
        ensures
            *final(self) == old(self).with_cast(false),
    {
        self.cast = false;
    }
}

impl Default for UserValues {
    /// A new user: no money, no catches, the starter rod, no cast pending.
    fn default() -> (r: UserValues)
        ensures
            r.fish_caught == 0,
            r.money == 0,
            r.rod_name@ == starter_rod_name(),
            r.rod_modifier is None,
            !r.cast,
            r.has_seen@.len() == 0,
    {
        UserValues {
            fish_caught: 0,
            money: 0,
            rod_name: "Stick with String".to_owned(),
            rod_modifier: None,
            cast: false,
            has_seen: Vec::new(),
        }
    }
}

} // verus!
