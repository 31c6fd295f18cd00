use vstd::prelude::*;

verus! {

/// A separator of account ids: `-`, `_` or `.`.
pub open spec fn is_separator(c: char) -> bool {
    c == '-' || c == '_' || c == '.'
}

/// A character that may appear in an account id.
pub open spec fn is_id_char(c: char) -> bool {
    ('a' <= c && c <= 'z') || ('0' <= c && c <= '9') || is_separator(c)
}

/// The platform's rule for account ids: 2 to 64 characters from `a-z`, `0-9`
/// and the separators, with no separator first, last, or next to another.
pub open spec fn is_valid_account_id(s: Seq<char>) -> bool {
    &&& 2 <= s.len() <= 64
    &&& forall|i: int| 0 <= i < s.len() ==> #[trigger] is_id_char(s[i])
    &&& !is_separator(s[0])
    &&& !is_separator(s[s.len() - 1])
    &&& forall|i: int|
        0 <= i < s.len() - 1 ==> !(#[trigger] is_separator(s[i]) && is_separator(s[i + 1]))
}

/// The id of the sub-account named `prefix` under `namespace`.
pub open spec fn joined_id(prefix: Seq<char>, namespace: Seq<char>) -> Seq<char> {
    prefix + seq!['.'] + namespace
}

/// What deriving an id gives: the joined id where the platform accepts it.
pub open spec fn derived_id(prefix: Seq<char>, namespace: Seq<char>) -> Option<Seq<char>> {
    let id = joined_id(prefix, namespace);
    if is_valid_account_id(id) {
        Some(id)
    } else {
        None
    }
}

/// A single label: a name with no `.` in it.
pub open spec fn is_label(s: Seq<char>) -> bool {
    forall|i: int| 0 <= i < s.len() ==> s[i] != '.'
}

/// Relies on near_sdk::AccountId::validate (near-account-id): it accepts an id
/// exactly when it is 2 to 64 bytes of `a-z`, `0-9`, `-`, `_`, `.` with no
/// separator at either end and no two separators in a row. Such ids are ASCII,
/// so their byte length is their length in characters.
#[verifier::external_body]
fn account_id_is_valid(s: &str) -> (r: bool)
    ensures
        r == is_valid_account_id(s@),
{
    near_sdk::AccountId::validate(s).is_ok()
}

/// Relies on String::push_str: appends the characters of `t` to `s`.
#[verifier::external_body]
fn push_str(s: &mut String, t: &str)
    ensures
        final(s)@ == old(s)@ + t@,
{
    s.push_str(t)
}

/// Derives the account id of the marketplace `prefix` under the factory
/// account `namespace`: `prefix.namespace`, or `None` where that is no valid
/// account id.
pub fn marketplace_id(prefix: &str, namespace: &str) -> (r: Option<String>)
    ensures
        r matches Some(id) ==> derived_id(prefix@, namespace@) == Some(id@),
        r is None ==> derived_id(prefix@, namespace@) is None,
{
    let mut id = prefix.to_owned();
    push_str(&mut id, ".");
    push_str(&mut id, namespace);
    proof {
        reveal_strlit(".");
        assert(id@ =~= joined_id(prefix@, namespace@));
    }
    if account_id_is_valid(id.as_str()) {
        Some(id)
    } else {
        None
    }
}

/// Deriving is a function of its inputs, and two prefixes that are single
/// labels give distinct ids unless prefix and namespace both agree.
pub proof fn lemma_marketplace_id_determined(
    p1: Seq<char>,
    n1: Seq<char>,
    p2: Seq<char>,
    n2: Seq<char>,
)
    ensures
        (p1 == p2 && n1 == n2) ==> derived_id(p1, n1) == derived_id(p2, n2),
        (is_label(p1) && is_label(p2) && joined_id(p1, n1) == joined_id(p2, n2)) ==> (p1 == p2
            && n1 == n2),
{
    if is_label(p1) && is_label(p2) && joined_id(p1, n1) == joined_id(p2, n2) {
        let s = joined_id(p1, n1);
        if p1.len() < p2.len() {
            assert(s[p1.len() as int] == '.');
            assert(s[p1.len() as int] == p2[p1.len() as int]);
        } else if p2.len() < p1.len() {
            assert(s[p2.len() as int] == '.');
            assert(s[p2.len() as int] == p1[p2.len() as int]);
        }
        assert(p1 =~= s.subrange(0, p1.len() as int));
        assert(p2 =~= s.subrange(0, p2.len() as int));
        assert(n1 =~= s.subrange(p1.len() as int + 1, s.len() as int));
        assert(n2 =~= s.subrange(p2.len() as int + 1, s.len() as int));
    }
}

} // verus!
