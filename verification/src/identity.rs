//! Agent identities: validation and the canonical storage path.
//!
//! An identity is a non-empty string over `[A-Za-z0-9_-]`.  The storage
//! path of an identity is `<root>/<id>.db`; auxiliary files beside the
//! primary store share the `<id>.` prefix, which keeps one identity's
//! files apart from those of an identity it is a prefix of.

use vstd::prelude::*;

verus! {

/// The characters an agent identity may consist of: ASCII letters,
/// digits, `-` and `_`.
pub open spec fn is_id_char(c: char) -> bool {
    ('a' <= c && c <= 'z') || ('A' <= c && c <= 'Z') || ('0' <= c && c <= '9') || c == '-'
        || c == '_'
}

/// A valid identity is non-empty and made of identity characters only.
pub open spec fn valid_id(s: Seq<char>) -> bool {
    s.len() > 0 && forall|i: int| 0 <= i < s.len() ==> is_id_char(#[trigger] s[i])
}

/// True iff `id` is a well-formed agent identity.  Rejection is reported
/// to the caller, never silently coerced.
pub fn validate(id: &str) -> (r: bool)
    ensures
        r == valid_id(id@),
{
    let n: usize = id.unicode_len();
    if n == 0 {
        return false;
    }
    let mut i: usize = 0;
    while i < n
        invariant
            0 <= i <= n,
            n == id@.len(),
            forall|k: int| 0 <= k < i ==> is_id_char(#[trigger] id@[k]),
        decreases n - i,
    {
        let c = id.get_char(i);
        let ok = ('a' <= c && c <= 'z') || ('A' <= c && c <= 'Z') || ('0' <= c && c <= '9')
            || c == '-' || c == '_';
        if !ok {
            return false;
        }
        i = i + 1;
    }
    true
}

/// The canonical storage path of an identity: the primary store file
/// `<root>/<id>.db`.  Auxiliary files beside it share the `<id>.`
/// prefix.
pub open spec fn spec_storage_path(root: Seq<char>, id: Seq<char>) -> Seq<char> {
    root + "/"@ + id + ".db"@
}

/// Derives the storage path of `id` under `root`.  Pure: no probe of
/// the filesystem.
pub fn resolve_storage_path(root: &str, id: &str) -> (r: String)
    ensures
        r@ == spec_storage_path(root@, id@),
{
    String::from_str(root).concat("/").concat(id).concat(".db")
}

/// Commands that open an existing instance accept either an agent
/// identity or a literal store path.  A string of the identity
/// alphabet is an identity and resolves under the storage root;
/// anything else is taken as a path, exactly as written.
pub fn resolve_instance_ref(root: &str, id_or_path: &str) -> (r: String)
    ensures
        valid_id(id_or_path@) ==> r@ == spec_storage_path(root@, id_or_path@),
        !valid_id(id_or_path@) ==> r@ == id_or_path@,
{
    if validate(id_or_path) {
        resolve_storage_path(root, id_or_path)
    } else {
        String::from_str(id_or_path)
    }
}

/// The decimal digit `d` stands for.
pub open spec fn spec_digit(d: int) -> char {
    if d == 0 {
        '0'
    } else if d == 1 {
        '1'
    } else if d == 2 {
        '2'
    } else if d == 3 {
        '3'
    } else if d == 4 {
        '4'
    } else if d == 5 {
        '5'
    } else if d == 6 {
        '6'
    } else if d == 7 {
        '7'
    } else if d == 8 {
        '8'
    } else {
        '9'
    }
}

/// The decimal digits of `n`, most significant first, no leading
/// zeros (a single `0` for zero itself).
pub open spec fn spec_dec(n: nat) -> Seq<char>
    decreases n,
{
    if n < 10 {
        seq![spec_digit(n as int)]
    } else {
        spec_dec(n / 10) + seq![spec_digit((n % 10) as int)]
    }
}

/// Decimal digits are identity characters.
pub proof fn lemma_dec_digits(n: nat)
    ensures
        spec_dec(n).len() >= 1,
        forall|i: int| 0 <= i < spec_dec(n).len() ==> is_id_char(#[trigger] spec_dec(n)[i]),
    decreases n,
{
    if n >= 10 {
        lemma_dec_digits(n / 10);
    }
}

/// The one-character string of a decimal digit.
fn digit_str(d: u64) -> (r: &'static str)
    requires
        d < 10,
    ensures
        r@ == seq![spec_digit(d as int)],
{
    if d == 0 {
        proof {
            reveal_strlit("0");
            assert("0"@ =~= seq![spec_digit(0)]);
        }
        "0"
    } else if d == 1 {
        proof {
            reveal_strlit("1");
            assert("1"@ =~= seq![spec_digit(1)]);
        }
        "1"
    } else if d == 2 {
        proof {
            reveal_strlit("2");
            assert("2"@ =~= seq![spec_digit(2)]);
        }
        "2"
    } else if d == 3 {
        proof {
            reveal_strlit("3");
            assert("3"@ =~= seq![spec_digit(3)]);
        }
        "3"
    } else if d == 4 {
        proof {
            reveal_strlit("4");
            assert("4"@ =~= seq![spec_digit(4)]);
        }
        "4"
    } else if d == 5 {
        proof {
            reveal_strlit("5");
            assert("5"@ =~= seq![spec_digit(5)]);
        }
        "5"
    } else if d == 6 {
        proof {
            reveal_strlit("6");
            assert("6"@ =~= seq![spec_digit(6)]);
        }
        "6"
    } else if d == 7 {
        proof {
            reveal_strlit("7");
            assert("7"@ =~= seq![spec_digit(7)]);
        }
        "7"
    } else if d == 8 {
        proof {
            reveal_strlit("8");
            assert("8"@ =~= seq![spec_digit(8)]);
        }
        "8"
    } else {
        proof {
            reveal_strlit("9");
            assert("9"@ =~= seq![spec_digit(9)]);
        }
        "9"
    }
}

/// Writes `n` in decimal.
pub fn dec_u64(n: u64) -> (r: String)
    ensures
        r@ == spec_dec(n as nat),
    decreases n,
{
    if n < 10 {
        String::from_str(digit_str(n))
    } else {
        let mut s = dec_u64(n / 10);
        s.append(digit_str(n % 10));
        s
    }
}

/// The identity generated at `secs` seconds since the Unix epoch.
pub open spec fn spec_agent_id(secs: nat) -> Seq<char> {
    "agent-"@ + spec_dec(secs)
}

/// A generated identity is itself valid.
pub proof fn lemma_agent_id_valid(secs: nat)
    ensures
        valid_id(spec_agent_id(secs)),
{
    reveal_strlit("agent-");
    lemma_dec_digits(secs);
    let s = spec_agent_id(secs);
    assert(forall|i: int| 0 <= i < 6 ==> is_id_char(#[trigger] "agent-"@[i]));
    assert forall|i: int| 0 <= i < s.len() implies is_id_char(#[trigger] s[i]) by {
        if i < 6 {
            assert(s[i] == "agent-"@[i]);
        } else {
            assert(s[i] == spec_dec(secs)[i - 6]);
        }
    }
}

/// The identity stamped with `secs` seconds since the Unix epoch.
pub fn timestamp_id(secs: u64) -> (r: String)
    ensures
        r@ == spec_agent_id(secs as nat),
{
    String::from_str("agent-").concat(dec_u64(secs).as_str())
}

/// Relies on std::time::SystemTime::now for the wall clock, read as
/// whole seconds since the Unix epoch; a clock before the epoch reads
/// as zero.
#[verifier::external_body]
fn now_unix_secs() -> u64 {
    match std::time::SystemTime::now().duration_since(std::time::UNIX_EPOCH) {
        Ok(d) => d.as_secs(),
        Err(_) => 0,
    }
}

/// Generates a fresh identity, `agent-<seconds-since-epoch>`.  Two
/// calls within the same second yield the same identity; the creation
/// path's existence check is what catches that collision.
pub fn generate_id() -> (r: String)
    ensures
        exists|secs: nat| r@ == spec_agent_id(secs),
        valid_id(r@),
{
    let secs = now_unix_secs();
    let r = timestamp_id(secs);
    proof {
        lemma_agent_id_valid(secs as nat);
        assert(r@ == spec_agent_id(secs as nat));
    }
    r
}

/// The explicit identity where one was given, else a generated one.
pub fn resolve_id(id: Option<String>) -> (r: String)
    ensures
        id matches Some(s) ==> r == s,
        id is None ==> valid_id(r@) && (exists|secs: nat| r@ == spec_agent_id(secs)),
{
    match id {
        Some(s) => s,
        None => generate_id(),
    }
}

} // verus!
