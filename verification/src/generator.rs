//! The password-generation algorithm.
//!
//! Generation runs in three stages over a buffer of empty slots:
//! one random slot is claimed for each enabled mandatory class (lowercase,
//! uppercase, digit — in that priority order), then the remaining empty
//! slots are swept left to right, receiving the separator at every position
//! whose index is a multiple of [`WORD_LENGTH`] (when special characters are
//! on) and a weighted random digit or letter otherwise.
//!
//! A slot claimed by a mandatory placement is never overwritten: where a
//! separator position was already claimed, the separator is skipped in
//! favour of the mandatory character.
//!
//! A mandatory placement probes random slots a bounded number of times and
//! then falls back to the first empty slot; when every slot is already
//! claimed by an earlier mandatory class, the class is skipped. The skip can
//! only happen when the requested length is smaller than the number of
//! enabled mandatory classes, which is why the presence guarantees for
//! uppercase letters and digits in [`password_ok`] carry a length condition.

use vstd::prelude::*;

use crate::chars::SEPARATOR;
use crate::chars::is_digit;
use crate::chars::is_lowercase;
use crate::chars::is_uppercase;
use crate::chars::random_digit;
use crate::chars::random_lowercase;
use crate::chars::random_uppercase;
use crate::config::ConfigurationError;
use crate::config::GenerationConfig;
use crate::rng::random_below;

verus! {

/// The spacing of the periodic separator: when special characters are on,
/// only positions whose index is a multiple of this constant may hold one.
pub const WORD_LENGTH: u32 = 5;

/// In the random fill, a draw from `0..10` above this threshold picks a
/// digit rather than a letter, giving digits a weight of roughly one in
/// five.
const NUMERIC_THRESHOLD: u32 = 7;

/// When both letter cases are allowed, a draw from `0..10` above this
/// threshold picks an uppercase letter, biasing the fill toward lowercase
/// (roughly seven letters in ten are lowercase).
const UPPERCASE_THRESHOLD: u32 = 6;

/// How many random probes a mandatory placement makes per slot of the
/// password before falling back to a left-to-right scan for an empty slot.
const PLACEMENT_ATTEMPTS_PER_SLOT: u64 = 10;

/// What a slot holds until a character is placed in it. Never part of a
/// finished password.
const EMPTY_SLOT: char = ' ';

/// `c` may appear in a password generated for `config`.
pub open spec fn char_allowed(config: GenerationConfig, c: char) -> bool {
    ||| config.allow_lower && is_lowercase(c)
    ||| config.allow_upper && is_uppercase(c)
    ||| config.allow_number && is_digit(c)
    ||| config.allow_special && c == SEPARATOR
}

/// How many character classes demand a slot of their own for `config`:
/// one for each enabled class among lowercase, uppercase and digit.
pub open spec fn mandatory_count(config: GenerationConfig) -> int {
    (if config.allow_lower { 1int } else { 0int })
        + (if config.allow_upper { 1int } else { 0int })
        + (if config.allow_number { 1int } else { 0int })
}

/// The sequence holds at least one lowercase letter.
pub open spec fn has_lowercase(s: Seq<char>) -> bool {
    exists|i: int| 0 <= i < s.len() && is_lowercase(#[trigger] s[i])
}

/// The sequence holds at least one uppercase letter.
pub open spec fn has_uppercase(s: Seq<char>) -> bool {
    exists|i: int| 0 <= i < s.len() && is_uppercase(#[trigger] s[i])
}

/// The sequence holds at least one digit.
pub open spec fn has_digit(s: Seq<char>) -> bool {
    exists|i: int| 0 <= i < s.len() && is_digit(#[trigger] s[i])
}

/// Everything the generator promises of a finished password for `config`:
/// the exact requested length; only characters of enabled classes; the
/// separator confined to indices that are multiples of [`WORD_LENGTH`]; and
/// one character of each enabled mandatory class wherever the length leaves
/// room for that class after the classes placed before it.
pub open spec fn password_ok(config: GenerationConfig, s: Seq<char>) -> bool {
    &&& s.len() == config.length as int
    &&& forall|i: int| 0 <= i < s.len() ==> char_allowed(config, #[trigger] s[i])
    &&& forall|i: int|
        0 <= i < s.len() && (#[trigger] s[i]) == SEPARATOR ==> i % (WORD_LENGTH as int) == 0
    &&& config.allow_lower ==> has_lowercase(s)
    &&& (config.allow_upper && config.length as int >= 1 + (if config.allow_lower {
        1int
    } else {
        0int
    })) ==> has_uppercase(s)
    &&& (config.allow_number && config.length as int >= mandatory_count(config)) ==> has_digit(s)
}

/// `c` is a character a mandatory placement may write for `config`: a
/// letter or digit of an enabled class, never the separator.
spec fn mandatory_char(config: GenerationConfig, c: char) -> bool {
    ||| config.allow_lower && is_lowercase(c)
    ||| config.allow_upper && is_uppercase(c)
    ||| config.allow_number && is_digit(c)
}

/// `c` may stand at index `i` of a finished password for `config`.
spec fn filled_char(config: GenerationConfig, c: char, i: int) -> bool {
    char_allowed(config, c) && (c == SEPARATOR ==> i % (WORD_LENGTH as int) == 0)
}

/// Writes `c` into a uniformly chosen empty slot of `pwd`, retrying a
/// bounded number of times and then falling back to the leftmost empty
/// slot. Returns the chosen position, or `None` — leaving `pwd` unchanged —
/// exactly when no slot is empty.
fn place_in_empty_slot(pwd: &mut Vec<char>, c: char) -> (placed: Option<usize>)
    requires
        old(pwd)@.len() > 0,
        old(pwd)@.len() <= u32::MAX as int,
    ensures
        match placed {
            Some(i) => i < old(pwd)@.len() && old(pwd)@[i as int] == EMPTY_SLOT && final(pwd)@
                == old(pwd)@.update(i as int, c),
            None => final(pwd)@ == old(pwd)@ && (forall|j: int|
                0 <= j < old(pwd)@.len() ==> old(pwd)@[j] != EMPTY_SLOT),
        },
{
    let len: u32 = pwd.len() as u32;
    let max_attempts: u64 = (len as u64) * PLACEMENT_ATTEMPTS_PER_SLOT;
    let mut attempts: u64 = 0;
    while attempts < max_attempts
        invariant
            pwd@ == old(pwd)@,
            len as int == pwd@.len(),
            len > 0,
            attempts <= max_attempts,
            max_attempts <= u32::MAX as u64 * PLACEMENT_ATTEMPTS_PER_SLOT,
        decreases max_attempts - attempts,
    {
        let pos = random_below(len) as usize;
        if pwd[pos] == EMPTY_SLOT {
            pwd[pos] = c;
            return Some(pos);
        }
        attempts = attempts + 1;
    }
    let mut i: usize = 0;
    while i < pwd.len()
        invariant
            pwd@ == old(pwd)@,
            i <= pwd@.len(),
            forall|j: int| 0 <= j < i ==> pwd@[j] != EMPTY_SLOT,
        decreases pwd@.len() - i,
    {
        if pwd[i] == EMPTY_SLOT {
            pwd[i] = c;
            return Some(i);
        }
        i = i + 1;
    }
    None
}

/// A random letter of an allowed case: deterministic when only one case is
/// allowed, biased toward lowercase when both are.
pub fn pick_letter(allow_upper: bool, allow_lower: bool) -> (c: char)
    requires
        allow_upper || allow_lower,
    ensures
        (allow_lower && is_lowercase(c)) || (allow_upper && is_uppercase(c)),
        !allow_upper ==> is_lowercase(c),
        !allow_lower ==> is_uppercase(c),
{
    if !allow_upper {
        random_lowercase()
    } else if !allow_lower {
        random_uppercase()
    } else if random_below(10) > UPPERCASE_THRESHOLD {
        random_uppercase()
    } else {
        random_lowercase()
    }
}

/// Sweeps the slots left to right and fills each one still empty: the
/// separator where special characters are on and the index is a multiple of
/// [`WORD_LENGTH`], otherwise a weighted random digit or letter. Slots
/// already claimed are left as they are.
fn fill_remaining(config: &GenerationConfig, pwd: &mut Vec<char>)
    requires
        config.allow_upper || config.allow_lower,
        forall|j: int|
            0 <= j < old(pwd)@.len() ==> old(pwd)@[j] == EMPTY_SLOT || mandatory_char(
                *config,
                old(pwd)@[j],
            ),
    ensures
        final(pwd)@.len() == old(pwd)@.len(),
        forall|j: int|
            0 <= j < final(pwd)@.len() ==> filled_char(*config, #[trigger] final(pwd)@[j], j),
        forall|j: int|
            0 <= j < final(pwd)@.len() && old(pwd)@[j] != EMPTY_SLOT ==> final(pwd)@[j] == old(
                pwd,
            )@[j],
{
    let len = pwd.len();
    let mut i: usize = 0;
    while i < len
        invariant
            pwd@.len() == old(pwd)@.len(),
            len == pwd@.len(),
            i <= len,
            config.allow_upper || config.allow_lower,
            forall|j: int|
                0 <= j < old(pwd)@.len() ==> old(pwd)@[j] == EMPTY_SLOT || mandatory_char(
                    *config,
                    old(pwd)@[j],
                ),
            forall|j: int| 0 <= j < i ==> filled_char(*config, #[trigger] pwd@[j], j),
            forall|j: int| i <= j < len ==> pwd@[j] == old(pwd)@[j],
            forall|j: int|
                0 <= j < len && old(pwd)@[j] != EMPTY_SLOT ==> pwd@[j] == old(pwd)@[j],
        decreases len - i,
    {
        if pwd[i] == EMPTY_SLOT {
            if config.allow_special && i % (WORD_LENGTH as usize) == 0 {
                pwd[i] = SEPARATOR;
            } else if config.allow_number && random_below(10) > NUMERIC_THRESHOLD {
                let c = random_digit();
                pwd[i] = c;
            } else {
                let c = pick_letter(config.allow_upper, config.allow_lower);
                pwd[i] = c;
            }
        }
        i = i + 1;
    }
}

/// Generates one password for `config` as a sequence of characters.
///
/// On a valid configuration the result meets every promise of
/// [`password_ok`]; an invalid one is rejected with the matching error and
/// nothing is generated.
pub fn generate_chars(config: &GenerationConfig) -> (r: Result<Vec<char>, ConfigurationError>)
    ensures
        match r {
            Ok(pwd) => config.valid() && password_ok(*config, pwd@),
            Err(ConfigurationError::NoLetterCase) => !config.allow_upper && !config.allow_lower,
            Err(ConfigurationError::ZeroLength) => (config.allow_upper || config.allow_lower)
                && config.length == 0,
        },
{
    if !config.allow_upper && !config.allow_lower {
        return Err(ConfigurationError::NoLetterCase);
    }
    if config.length == 0 {
        return Err(ConfigurationError::ZeroLength);
    }
    let len: usize = config.length as usize;

    let mut pwd: Vec<char> = Vec::new();
    while pwd.len() < len
        invariant
            pwd@.len() <= len,
            forall|j: int| 0 <= j < pwd@.len() ==> pwd@[j] == EMPTY_SLOT,
        decreases len - pwd@.len(),
    {
        pwd.push(EMPTY_SLOT);
    }
    let mut lower_placed: Option<usize> = None;
    if config.allow_lower {
        let c = random_lowercase();
        let ghost before = pwd@;
        lower_placed = place_in_empty_slot(&mut pwd, c);
        proof {
            if lower_placed is None {
                assert(before[0] == EMPTY_SLOT);
                assert(false);
            }
            assert(is_lowercase(pwd@[lower_placed->0 as int]));
        }
    }
    let ghost l_idx: int = if config.allow_lower {
        lower_placed->0 as int
    } else {
        -1
    };
    proof {
        assert(pwd@.len() == len);
        assert(config.allow_lower ==> 0 <= l_idx < len && is_lowercase(pwd@[l_idx]));
        assert(forall|j: int| 0 <= j < len && j != l_idx ==> pwd@[j] == EMPTY_SLOT);
    }

    let mut upper_placed: Option<usize> = None;
    if config.allow_upper {
        let c = random_uppercase();
        let ghost before = pwd@;
        upper_placed = place_in_empty_slot(&mut pwd, c);
        proof {
            if upper_placed is None {
                if len as int >= 1 + (if config.allow_lower {
                    1int
                } else {
                    0int
                }) {
                    let w: int = if l_idx == 0 {
                        1
                    } else {
                        0
                    };
                    assert(before[w] == EMPTY_SLOT);
                    assert(false);
                }
            } else {
                assert(is_uppercase(pwd@[upper_placed->0 as int]));
            }
        }
    }
    let ghost u_idx: int = if upper_placed is Some {
        upper_placed->0 as int
    } else {
        -1
    };
    proof {
        assert(pwd@.len() == len);
        assert(config.allow_lower ==> 0 <= l_idx < len && is_lowercase(pwd@[l_idx]));
        assert(config.allow_upper && len as int >= 1 + (if config.allow_lower {
            1int
        } else {
            0int
        }) ==> upper_placed is Some);
        assert(upper_placed is Some ==> 0 <= u_idx < len && is_uppercase(pwd@[u_idx]));
        assert(forall|j: int| 0 <= j < len && j != l_idx && j != u_idx ==> pwd@[j] == EMPTY_SLOT);
    }

    let mut number_placed: Option<usize> = None;
    if config.allow_number {
        let c = random_digit();
        let ghost before = pwd@;
        number_placed = place_in_empty_slot(&mut pwd, c);
        proof {
            if number_placed is None {
                if len as int >= mandatory_count(*config) {
                    let w: int = if l_idx != 0 && u_idx != 0 {
                        0
                    } else if l_idx != 1 && u_idx != 1 {
                        1
                    } else {
                        2
                    };
                    assert(0 <= w < len);
                    assert(before[w] == EMPTY_SLOT);
                    assert(false);
                }
            } else {
                assert(is_digit(pwd@[number_placed->0 as int]));
            }
        }
    }
    let ghost n_idx: int = if number_placed is Some {
        number_placed->0 as int
    } else {
        -1
    };
    proof {
        assert(pwd@.len() == len);
        assert(config.allow_lower ==> 0 <= l_idx < len && is_lowercase(pwd@[l_idx]));
        assert(upper_placed is Some ==> 0 <= u_idx < len && is_uppercase(pwd@[u_idx]));
        assert(config.allow_number && len as int >= mandatory_count(*config) ==> number_placed
            is Some);
        assert(number_placed is Some ==> 0 <= n_idx < len && is_digit(pwd@[n_idx]));
        assert(forall|j: int|
            0 <= j < len && j != l_idx && j != u_idx && j != n_idx ==> pwd@[j] == EMPTY_SLOT);
        assert(forall|j: int|
            0 <= j < len ==> pwd@[j] == EMPTY_SLOT || mandatory_char(*config, pwd@[j]));
    }

    fill_remaining(config, &mut pwd);
    proof {
        assert(config.allow_lower ==> is_lowercase(pwd@[l_idx]));
        assert(upper_placed is Some ==> is_uppercase(pwd@[u_idx]));
        assert(number_placed is Some ==> is_digit(pwd@[n_idx]));
        assert(password_ok(*config, pwd@));
    }
    Ok(pwd)
}

/// Appends one character to the string.
///
/// Relies on `String::push`: it appends exactly the given character at the
/// end of the string.
#[verifier::external_body]
fn push_char(s: &mut String, c: char)
    ensures
        final(s)@ == old(s)@.push(c),
{
    s.push(c)
}

/// Builds the string holding exactly the given characters, in order.
pub fn chars_to_string(chars: &Vec<char>) -> (s: String)
    ensures
        s@ == chars@,
{
    let mut s = String::new();
    let mut i: usize = 0;
    while i < chars.len()
        invariant
            i <= chars@.len(),
            s@ == chars@.take(i as int),
        decreases chars@.len() - i,
    {
        let c = chars[i];
        push_char(&mut s, c);
        proof {
            assert(chars@.take(i as int).push(c) =~= chars@.take(i as int + 1));
        }
        i = i + 1;
    }
    proof {
        assert(chars@.take(chars@.len() as int) =~= chars@);
    }
    s
}

/// Generates one password for `config`.
///
/// The contract of [`generate_chars`] carries over unchanged: on a valid
/// configuration the returned string meets every promise of
/// [`password_ok`], and an invalid one is rejected with the matching error.
pub fn generate(config: &GenerationConfig) -> (r: Result<String, ConfigurationError>)
    ensures
        match r {
            Ok(pwd) => config.valid() && password_ok(*config, pwd@),
            Err(ConfigurationError::NoLetterCase) => !config.allow_upper && !config.allow_lower,
            Err(ConfigurationError::ZeroLength) => (config.allow_upper || config.allow_lower)
                && config.length == 0,
        },
{
    match generate_chars(config) {
        Ok(chars) => Ok(chars_to_string(&chars)),
        Err(e) => Err(e),
    }
}

} // verus!
