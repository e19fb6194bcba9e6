use vstd::prelude::*;
use vstd::string::StringExecFns;
use crate::direction::Direction;
use crate::exit_type::ExitType;
use crate::starts_with_vowel;
use crate::starts_with_vowel_spec;

verus! {

/// The indefinite article a word takes: "an" before a word starting with a
/// vowel letter, "a" otherwise (and before the empty word).
pub open spec fn article_seq(word: Seq<char>) -> Seq<char> {
    if starts_with_vowel_spec(word) {
        "an"@
    } else {
        "a"@
    }
}

/// A plain exit that can always be gone through, described as
/// "an exit <direction>".
#[derive(Clone, Copy, Debug, PartialEq, Eq, Structural)]
pub struct RegularExit;

impl ExitType for RegularExit {
    open spec fn spec_can_go_through(&self) -> bool {
        true
    }

    open spec fn spec_description(&self, direction: Direction) -> Seq<char> {
        "an exit "@ + direction.text_spec()
    }

    /// Always returns true: a regular exit can always be gone through.
    fn can_go_through(&self) -> (r: bool) {
        true
    }

    /// Returns "an exit <direction>".
    fn description(&self, direction: Direction) -> (r: String) {
        let mut s = String::new();
        s.append("an exit ");
        s.append(direction.to_text());
        proof {
            assert(s@ =~= self.spec_description(direction));
        }
        s
    }
}

/// An exit that can always be gone through and carries a name, such as
/// "archway"; described as "a(n) <name> <direction>".
#[derive(Clone, Debug)]
pub struct NamedExit {
    /// The name of the exit, such as "archway" or "tunnel".
    pub name: String,
}

impl NamedExit {
    /// Creates a new named exit with the given name.
    pub fn new(name: String) -> (r: NamedExit)
        ensures
            r == (NamedExit { name }),
    {
        NamedExit { name }
    }
}

impl ExitType for NamedExit {
    open spec fn spec_can_go_through(&self) -> bool {
        true
    }

    open spec fn spec_description(&self, direction: Direction) -> Seq<char> {
        article_seq(self.name@) + " "@ + self.name@ + " "@ + direction.text_spec()
    }

    /// Always returns true: a named exit can always be gone through.
    fn can_go_through(&self) -> (r: bool) {
        true
    }

    /// Returns "a(n) <name> <direction>", choosing the article by a
    /// leading-vowel check on the name.
    fn description(&self, direction: Direction) -> (r: String) {
        let mut s = String::new();
        if starts_with_vowel(self.name.as_str()) {
            s.append("an");
        } else {
            s.append("a");
        }
        s.append(" ");
        s.append(self.name.as_str());
        s.append(" ");
        s.append(direction.to_text());
        proof {
            assert(s@ =~= self.spec_description(direction));
        }
        s
    }
}

/// A door between two rooms that can be locked and unlocked, with an optional
/// name; it can be gone through exactly when it is unlocked.
#[derive(Clone, Debug)]
pub struct Door {
    /// Whether the door is currently locked.
    pub locked: bool,
    /// An optional name for the door, such as "heavy wooden door".
    pub name: Option<String>,
}

impl Door {
    /// Creates a new door with the given locked state and no name.
    pub fn new(locked: bool) -> (r: Door)
        ensures
            r == (Door { locked, name: None }),
    {
        Door { locked, name: None }
    }

    /// Creates a new door with the given locked state and a name.
    pub fn new_with_name(locked: bool, name: String) -> (r: Door)
        ensures
            r == (Door { locked, name: Some(name) }),
    {
        Door { locked, name: Some(name) }
    }

    /// Locks the door, preventing passage.
    pub fn lock(&mut self)
        ensures
            final(self).locked,
            final(self).name == old(self).name,
    {
        self.locked = true;
    }

    /// Unlocks the door, allowing passage.
    pub fn unlock(&mut self)
        ensures
            !final(self).locked,
            final(self).name == old(self).name,
    {
        self.locked = false;
    }

    /// Flips the door's locked state.
    pub fn toggle_lock(&mut self)
        ensures
            final(self).locked == !old(self).locked,
            final(self).name == old(self).name,
    {
        self.locked = !self.locked;
    }
}

impl ExitType for Door {
    open spec fn spec_can_go_through(&self) -> bool {
        !self.locked
    }

    open spec fn spec_description(&self, direction: Direction) -> Seq<char> {
        match self.name {
            Some(name) => (
            if starts_with_vowel_spec(name@) && !self.locked {
                "an"@
            } else {
                "a"@
            }) + (
            if self.locked {
                " locked "@
            } else {
                " "@
            }) + name@ + " "@ + direction.text_spec(),
            None => "a"@ + (
            if self.locked {
                " locked "@
            } else {
                " "@
            }) + "door "@ + direction.text_spec(),
        }
    }

    /// Returns true exactly when the door is unlocked.
    fn can_go_through(&self) -> (r: bool) {
        !self.locked
    }

    /// Describes the door: the article (the vowel form only for an unlocked
    /// named door), the locked state, the name if there is one, and the
    /// direction.
    fn description(&self, direction: Direction) -> (r: String) {
        let mut s = String::new();
        match &self.name {
            Some(name) => {
                if starts_with_vowel(name.as_str()) && !self.locked {
                    s.append("an");
                } else {
                    s.append("a");
                }
                if self.locked {
                    s.append(" locked ");
                } else {
                    s.append(" ");
                }
                s.append(name.as_str());
                s.append(" ");
                s.append(direction.to_text());
            },
            None => {
                s.append("a");
                if self.locked {
                    s.append(" locked ");
                } else {
                    s.append(" ");
                }
                s.append("door ");
                s.append(direction.to_text());
            },
        }
        proof {
            assert(s@ =~= self.spec_description(direction));
        }
        s
    }
}

/// The closed set of exit behaviours a map edge can carry, dispatching the
/// `ExitType` contract to the variant's own behaviour.
#[derive(Clone, Debug)]
pub enum ExitBehavior {
    /// A plain, always-open exit.
    Regular(RegularExit),
    /// An always-open exit with a name.
    Named(NamedExit),
    /// A door that can be locked and unlocked.
    Door(Door),
}

impl ExitType for ExitBehavior {
    open spec fn spec_can_go_through(&self) -> bool {
        match self {
            ExitBehavior::Regular(e) => e.spec_can_go_through(),
            ExitBehavior::Named(e) => e.spec_can_go_through(),
            ExitBehavior::Door(e) => e.spec_can_go_through(),
        }
    }

    open spec fn spec_description(&self, direction: Direction) -> Seq<char> {
        match self {
            ExitBehavior::Regular(e) => e.spec_description(direction),
            ExitBehavior::Named(e) => e.spec_description(direction),
            ExitBehavior::Door(e) => e.spec_description(direction),
        }
    }

    /// Whether the carried behaviour currently allows passage.
    fn can_go_through(&self) -> (r: bool) {
        match self {
            ExitBehavior::Regular(e) => e.can_go_through(),
            ExitBehavior::Named(e) => e.can_go_through(),
            ExitBehavior::Door(e) => e.can_go_through(),
        }
    }

    /// The carried behaviour's description for `direction`.
    fn description(&self, direction: Direction) -> (r: String) {
        match self {
            ExitBehavior::Regular(e) => e.description(direction),
            ExitBehavior::Named(e) => e.description(direction),
            ExitBehavior::Door(e) => e.description(direction),
        }
    }
}

} // verus!
