//! Keys handed to the organizer of a game: the public event key and the
//! secret key that proves ownership.

use rand::Rng;
use vstd::prelude::*;

verus! {

/// Length of an event key, separators included.
pub const EVENT_KEY_LEN: usize = 18;

/// Number of symbols an event key draws from: `A` to `Z`, then `0` to `9`.
pub const KEY_SYMBOLS: usize = 36;

/// The secret key used when no name could be generated.
pub const FALLBACK_SECRET_KEY: &'static str = "secret-key-fallback";

/// `String::push` appends one character to the end of the string.
pub assume_specification[ String::push ](text: &mut String, c: char)
    ensures
        final(text)@ == old(text)@.push(c),
;

/// `rand::thread_rng` with `Rng::gen_range` on `0..bound`: a number drawn
/// from the thread's generator. It is below `bound`; the range must not be
/// empty, on which `gen_range` panics.
#[verifier::external_body]
fn random_index(bound: usize) -> (index: usize)
    requires
        bound > 0,
    ensures
        index < bound,
{
    rand::thread_rng().gen_range(0..bound)
}

/// `petname::petname`: a random name of `words` words from the default word
/// lists, joined by `separator`, or nothing where the name would be empty.
/// Of the name, only that it is not empty is claimed.
#[verifier::external_body]
fn pet_name(words: u8, separator: &str) -> (name: Option<String>)
    ensures
        name matches Some(text) ==> text@.len() > 0,
{
    petname::petname(words, separator)
}

/// The `index`-th key symbol: the capital letters, then the digits.
pub open spec fn symbol_at(index: int) -> char {
    if index < 26 {
        (('A' as u8) + index) as u8 as char
    } else {
        (('0' as u8) + index - 26) as u8 as char
    }
}

/// Whether `c` is one of the key symbols.
pub open spec fn is_key_symbol(c: char) -> bool {
    exists|index: int| 0 <= index < KEY_SYMBOLS && c == #[trigger] symbol_at(index)
}

/// Whether position `at` of an event key holds a separator.
pub open spec fn is_separator_position(at: int) -> bool {
    at > 0 && at % 6 == 0
}

/// The form of an event key: eighteen characters, a hyphen at positions 6
/// and 12, a key symbol everywhere else.
pub open spec fn is_event_key(key: Seq<char>) -> bool {
    &&& key.len() == EVENT_KEY_LEN
    &&& forall|at: int|
        0 <= at < key.len() ==> if is_separator_position(at) {
            key[at] == '-'
        } else {
            is_key_symbol(#[trigger] key[at])
        }
}

/// The secret key made of a generated name: the name itself, or the fallback
/// key where there is none.
pub open spec fn secret_key_of(name: Option<String>) -> Seq<char> {
    match name {
        Some(name) => name@,
        None => FALLBACK_SECRET_KEY@,
    }
}

/// The key symbol for a drawn index.
pub fn key_symbol(index: usize) -> (c: char)
    requires
        index < KEY_SYMBOLS,
    ensures
        c == symbol_at(index as int),
{
    if index < 26 {
        ('A' as u8 + index as u8) as char
    } else {
        ('0' as u8 + (index - 26) as u8) as char
    }
}

/// Generates a random event key.
pub fn generate_event_key() -> (key: String)
    ensures
        is_event_key(key@),
{
    let mut key = String::new();
    let mut at: usize = 0;
    while at < EVENT_KEY_LEN
        invariant
            at <= EVENT_KEY_LEN,
            key@.len() == at,
            forall|i: int|
                0 <= i < at ==> if is_separator_position(i) {
                    key@[i] == '-'
                } else {
                    is_key_symbol(#[trigger] key@[i])
                },
        decreases EVENT_KEY_LEN - at,
    {
        if at > 0 && at % 6 == 0 {
            key.push('-');
        } else {
            let c = key_symbol(random_index(KEY_SYMBOLS));
            key.push(c);
        }
        at += 1;
    }
    key
}

/// Makes the secret key of a generated name, falling back to
/// [`FALLBACK_SECRET_KEY`] where no name was generated.
pub fn secret_key_from(name: Option<String>) -> (key: String)
    ensures
        key@ == secret_key_of(name),
{
    match name {
        Some(name) => name,
        None => FALLBACK_SECRET_KEY.to_owned(),
    }
}

/// Generates a secret key: three random words joined by hyphens, or the
/// fallback key. Either way the key is not empty.
pub fn generate_secret_key() -> (key: String)
    ensures
        key@.len() > 0,
{
    proof {
        reveal_strlit("secret-key-fallback");
    }
    secret_key_from(pet_name(3, "-"))
}

} // verus!
