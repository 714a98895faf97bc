use vstd::prelude::*;

verus! {

/// The closed vocabulary of authorization states.
#[derive(Debug, Clone, Copy, PartialEq, Eq, Structural)]
pub enum PermissionStatus {
    NotDetermined,
    Denied,
    Authorized,
    Restricted,
    Limited,
}

/// Whether `s` is one of the five phrases that the status source may report.
pub open spec fn is_canonical_phrase(s: Seq<char>) -> bool {
    ||| s == "not determined"@
    ||| s == "denied"@
    ||| s == "authorized"@
    ||| s == "restricted"@
    ||| s == "limited"@
}

/// The status that a piece of raw status text stands for: an exact,
/// case-sensitive match against the five phrases, and `NotDetermined` for
/// anything else. The default under-claims on purpose: text that does not
/// clearly say "authorized" never reads as authorized.
pub open spec fn status_of(s: Seq<char>) -> PermissionStatus {
    if s == "denied"@ {
        PermissionStatus::Denied
    } else if s == "authorized"@ {
        PermissionStatus::Authorized
    } else if s == "restricted"@ {
        PermissionStatus::Restricted
    } else if s == "limited"@ {
        PermissionStatus::Limited
    } else {
        PermissionStatus::NotDetermined
    }
}

/// The five phrases are pairwise distinct.
pub(crate) proof fn lemma_phrases_distinct()
    ensures
        "not determined"@ != "denied"@,
        "not determined"@ != "authorized"@,
        "not determined"@ != "restricted"@,
        "not determined"@ != "limited"@,
        "denied"@ != "authorized"@,
        "denied"@ != "restricted"@,
        "denied"@ != "limited"@,
        "authorized"@ != "restricted"@,
        "authorized"@ != "limited"@,
        "restricted"@ != "limited"@,
{
    reveal_strlit("not determined");
    reveal_strlit("denied");
    reveal_strlit("authorized");
    reveal_strlit("restricted");
    reveal_strlit("limited");
    assert("not determined"@.len() == 14);
    assert("denied"@.len() == 6);
    assert("authorized"@.len() == 10);
    assert("restricted"@.len() == 10);
    assert("limited"@.len() == 7);
    assert("authorized"@[0] != "restricted"@[0]);
}

/// Compares two strings character by character.
pub fn same_text(a: &str, b: &str) -> (r: bool)
    ensures
        r == (a@ == b@),
{
    let n = a.unicode_len();
    if n != b.unicode_len() {
        return false;
    }
    let mut i: usize = 0;
    while i < n
        invariant
            n == a@.len(),
            n == b@.len(),
            i <= n,
            a@.subrange(0, i as int) == b@.subrange(0, i as int),
        decreases n - i,
    {
        if a.get_char(i) != b.get_char(i) {
            return false;
        }
        assert(a@.subrange(0, i + 1) == a@.subrange(0, i as int).push(a@[i as int]));
        assert(b@.subrange(0, i + 1) == b@.subrange(0, i as int).push(b@[i as int]));
        i = i + 1;
    }
    assert(a@ == a@.subrange(0, n as int));
    assert(b@ == b@.subrange(0, n as int));
    true
}

impl<'a> From<&'a str> for PermissionStatus {
    /// Reads raw status text; see `status_of`. Never fails.
    fn from(status: &'a str) -> (r: PermissionStatus)
        ensures
            r == status_of(status@),
    {
        proof {
            lemma_phrases_distinct();
        }
        if same_text(status, "not determined") {
            PermissionStatus::NotDetermined
        } else if same_text(status, "denied") {
            PermissionStatus::Denied
        } else if same_text(status, "authorized") {
            PermissionStatus::Authorized
        } else if same_text(status, "restricted") {
            PermissionStatus::Restricted
        } else if same_text(status, "limited") {
            PermissionStatus::Limited
        } else {
            PermissionStatus::NotDetermined
        }
    }
}

impl<'a> vstd::std_specs::convert::FromSpecImpl<&'a str> for PermissionStatus {
    open spec fn obeys_from_spec() -> bool {
        true
    }

    open spec fn from_spec(v: &'a str) -> PermissionStatus {
        status_of(v@)
    }
}

/// Text outside the five canonical phrases (the empty string, other casings,
/// unknown words) always reads as `NotDetermined`.
pub proof fn lemma_unrecognized_is_not_determined(s: Seq<char>)
    requires
        !is_canonical_phrase(s),
    ensures
        status_of(s) == PermissionStatus::NotDetermined,
{
}

/// Only the exact phrase "authorized" reads as `Authorized`.
pub proof fn lemma_authorized_only_from_its_phrase(s: Seq<char>)
    ensures
        status_of(s) == PermissionStatus::Authorized <==> s == "authorized"@,
{
    lemma_phrases_distinct();
}

} // verus!
