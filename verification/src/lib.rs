//! Building blocks for the spatial layout of an interactive-fiction world:
//! rooms connected by directional exits whose traversability can depend on
//! state (a door may be locked), and a map that stores each connection once
//! while answering queries from either endpoint's point of view.

use vstd::prelude::*;
use vstd::string::StrSliceExecFns;

mod direction;
mod exit;
mod exit_type;
mod exit_types;
mod game_map;
mod room;
mod world;

pub use direction::Direction;
pub use exit::Exit;
pub use exit_type::ExitType;
pub use game_map::Edge;
pub use game_map::EdgeRef;
pub use game_map::ExitWay;
pub use game_map::GameMap;
pub use game_map::MapError;
pub use game_map::RoomHandle;
pub use exit_types::Door;
pub use exit_types::ExitBehavior;
pub use exit_types::NamedExit;
pub use exit_types::RegularExit;
pub use room::Room;
pub use world::World;

verus! {

/// True when `c` is one of the vowel letters `aeiou`, in either case.
pub open spec fn is_vowel_char(c: char) -> bool {
    ||| c == 'a'
    ||| c == 'e'
    ||| c == 'i'
    ||| c == 'o'
    ||| c == 'u'
    ||| c == 'A'
    ||| c == 'E'
    ||| c == 'I'
    ||| c == 'O'
    ||| c == 'U'
}

/// True when `s` is non-empty and its first character is a vowel letter.
/// An empty sequence does not start with a vowel.
pub open spec fn starts_with_vowel_spec(s: Seq<char>) -> bool {
    s.len() > 0 && is_vowel_char(s[0])
}

/// Decides which indefinite article a word takes: a word whose first
/// character is a vowel letter takes "an", every other word (the empty word
/// included) takes "a".
pub fn starts_with_vowel(s: &str) -> (r: bool)
    ensures
        r == starts_with_vowel_spec(s@),
{
    if s.is_empty() {
        false
    } else {
        let c = s.get_char(0);
        c == 'a' || c == 'e' || c == 'i' || c == 'o' || c == 'u' || c == 'A' || c == 'E' || c == 'I'
            || c == 'O' || c == 'U'
    }
}

} // verus!
