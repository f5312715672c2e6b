use vstd::prelude::*;
use vstd::string::*;

use rand::Rng;

verus! {

/// The number of characters in a generated file name.
pub const GENERATED_NAME_LEN: usize = 10;

/// `c` is an ASCII letter or digit.
pub open spec fn is_alphanumeric(c: char) -> bool {
    ('A' <= c && c <= 'Z') || ('a' <= c && c <= 'z') || ('0' <= c && c <= '9')
}

/// Every character of `s` is an ASCII letter or digit.
pub open spec fn all_alphanumeric(s: Seq<char>) -> bool {
    forall|i: int| 0 <= i < s.len() ==> is_alphanumeric(#[trigger] s[i])
}

/// A name that the filename generator may produce.
pub open spec fn is_generated_name(s: Seq<char>) -> bool {
    s.len() == GENERATED_NAME_LEN && all_alphanumeric(s)
}

/// Relies on rand's `Alphanumeric` distribution, sampled from the thread-local
/// generator: it returns one byte of `A-Z`, `a-z` or `0-9`.
#[verifier::external_body]
fn random_alphanumeric() -> (r: String)
    ensures
        r@.len() == 1,
        is_alphanumeric(r@[0]),
{
    let c = rand::thread_rng().sample(rand::distributions::Alphanumeric) as char;
    c.to_string()
}

/// A fresh random name of ten ASCII letters and digits.
pub fn generate_filename() -> (r: String)
    ensures
        is_generated_name(r@),
{
    let mut name = String::new();
    let mut i: usize = 0;
    while i < GENERATED_NAME_LEN
        invariant
            i <= GENERATED_NAME_LEN,
            name@.len() == i,
            all_alphanumeric(name@),
        decreases GENERATED_NAME_LEN - i,
    {
        let c = random_alphanumeric();
        let ghost before = name@;
        name.append(c.as_str());
        assert(name@ == before + c@);
        i = i + 1;
    }
    name
}

/// The name that an upload is stored under: the one that the field declares,
/// or else a freshly generated one.
pub fn choose_filename(declared: Option<String>) -> (r: String)
    ensures
        declared is Some ==> r == declared->Some_0,
        declared is None ==> is_generated_name(r@),
{
    match declared {
        Some(name) => name,
        None => generate_filename(),
    }
}

} // verus!
