//! Asset identifiers of the form `factory/<creator>/<subdenom>`.

use vstd::prelude::*;
use crate::text::{append_chars, chars_of, push_char, starts_with};

verus! {

/// An identifier is accepted when it begins with `factory/`.
pub open spec fn spec_is_factory_denom(mint: Seq<char>) -> bool {
    "factory/"@.is_prefix_of(mint)
}

/// The position of the first `/` at or after `from`, or the length of `s`
/// where there is none.
pub open spec fn next_slash(s: Seq<char>, from: int) -> int
    decreases s.len() - from,
{
    if from < 0 || from >= s.len() {
        s.len() as int
    } else if s[from] == '/' {
        from
    } else {
        next_slash(s, from + 1)
    }
}

/// Creator and subdenom of an identifier: its second and third segments
/// between slashes. `None` where it has fewer than three segments.
pub open spec fn spec_denom_parts(mint: Seq<char>) -> Option<(Seq<char>, Seq<char>)> {
    let first = next_slash(mint, 0);
    let second = next_slash(mint, first + 1);
    let third = next_slash(mint, second + 1);
    if first < mint.len() && second < mint.len() {
        Some((mint.subrange(first + 1, second), mint.subrange(second + 1, third)))
    } else {
        None
    }
}

/// Whether a character is kept in an address fragment.
pub open spec fn is_address_char(c: char) -> bool {
    c != '/' && c != '_'
}

/// A fragment without its slashes and underscores.
pub open spec fn spec_sanitize(fragment: Seq<char>) -> Seq<char> {
    fragment.filter(|c: char| is_address_char(c))
}

/// What stands between the two fragments of a derived address. Cleaning
/// removes it from the fragments, so it marks where the first one ends.
pub const ADDRESS_SEPARATOR: char = '_';

/// Two cleaned fragments behind a prefix, with the separator between them.
pub open spec fn spec_joined(prefix: Seq<char>, creator: Seq<char>, subdenom: Seq<char>) -> Seq<char> {
    prefix + spec_sanitize(creator) + seq![ADDRESS_SEPARATOR] + spec_sanitize(subdenom)
}

/// The vault account derived from an identifier's parts.
pub open spec fn spec_vault_account(creator: Seq<char>, subdenom: Seq<char>) -> Seq<char> {
    spec_joined("inj1v"@, creator, subdenom)
}

/// The custody wallet derived from an identifier's parts.
pub open spec fn spec_vault_wallet(creator: Seq<char>, subdenom: Seq<char>) -> Seq<char> {
    spec_joined("inj1i"@, creator, subdenom)
}

proof fn lemma_next_slash_bounds(s: Seq<char>, from: int)
    requires
        0 <= from <= s.len(),
    ensures
        from <= next_slash(s, from) <= s.len(),
        next_slash(s, from) < s.len() ==> s[next_slash(s, from)] == '/',
        forall|j: int| from <= j < next_slash(s, from) ==> s[j] != '/',
    decreases s.len() - from,
{
    if from < s.len() && s[from] != '/' {
        lemma_next_slash_bounds(s, from + 1);
    }
}

/// Where an identifier has parts, it reads: a first segment, a slash, the
/// creator, a slash, the subdenom, and then its end or another slash. No
/// segment holds a slash, and the first segment of an accepted identifier is
/// `factory`.
pub proof fn lemma_denom_parts_shape(mint: Seq<char>)
    ensures
        spec_denom_parts(mint) matches Some((creator, subdenom)) ==> {
            let head = mint.subrange(0, next_slash(mint, 0));
            let read = head + seq!['/'] + creator + seq!['/'] + subdenom;
            &&& read.is_prefix_of(mint)
            &&& read.len() == mint.len() || mint[read.len() as int] == '/'
            &&& !head.contains('/') && !creator.contains('/') && !subdenom.contains('/')
            &&& spec_is_factory_denom(mint) ==> head == "factory"@
        },
{
    reveal_strlit("factory/");
    reveal_strlit("factory");
    lemma_next_slash_bounds(mint, 0);
    let first = next_slash(mint, 0);
    if first < mint.len() {
        lemma_next_slash_bounds(mint, first + 1);
        let second = next_slash(mint, first + 1);
        if second < mint.len() {
            lemma_next_slash_bounds(mint, second + 1);
            let third = next_slash(mint, second + 1);
            let head = mint.subrange(0, first);
            let creator = mint.subrange(first + 1, second);
            let subdenom = mint.subrange(second + 1, third);
            let read = head + seq!['/'] + creator + seq!['/'] + subdenom;
            assert(read =~= mint.subrange(0, third));
            if spec_is_factory_denom(mint) {
                assert forall|j: int| 0 <= j < 8 implies mint[j] == "factory/"@[j] by {
                    assert(mint.subrange(0, 8)[j] == mint[j]);
                }
                assert(mint[7] == '/');
                assert(first == 7) by {
                    if first < 7 {
                        assert(mint[first] == "factory/"@[first]);
                    }
                }
                assert(head =~= "factory"@);
            }
        }
    }
}

/// What is left of a fragment holds neither a slash nor an underscore, and a
/// fragment that holds neither is left as it is.
pub proof fn lemma_sanitize_clean(fragment: Seq<char>)
    ensures
        forall|i: int| 0 <= i < spec_sanitize(fragment).len() ==> is_address_char(spec_sanitize(fragment)[i]),
        (forall|i: int| 0 <= i < fragment.len() ==> is_address_char(fragment[i])) ==> spec_sanitize(fragment)
            == fragment,
    decreases fragment.len(),
{
    reveal(Seq::filter);
    if fragment.len() > 0 {
        lemma_sanitize_clean(fragment.drop_last());
        if forall|i: int| 0 <= i < fragment.len() ==> is_address_char(fragment[i]) {
            assert forall|i: int| 0 <= i < fragment.drop_last().len() implies is_address_char(
                fragment.drop_last()[i],
            ) by {
                assert(fragment.drop_last()[i] == fragment[i]);
            }
            assert(fragment.drop_last().push(fragment.last()) =~= fragment);
        }
    }
}

/// Whether `mint` begins with `factory/`.
pub fn is_factory_denom(mint: &str) -> (valid: bool)
    ensures
        valid == spec_is_factory_denom(mint@),
{
    let chars = chars_of(mint);
    let prefix = chars_of("factory/");
    starts_with(&chars, &prefix)
}

/// The position of the first `/` at or after `from`.
fn find_slash(chars: &Vec<char>, from: usize) -> (at: usize)
    requires
        from <= chars.len(),
    ensures
        at == next_slash(chars@, from as int),
        from <= at <= chars.len(),
{
    let mut i: usize = from;
    while i < chars.len() && chars[i] != '/'
        invariant
            from <= i <= chars.len(),
            next_slash(chars@, i as int) == next_slash(chars@, from as int),
        decreases chars.len() - i,
    {
        i += 1;
    }
    i
}

/// The characters of `chars` from `from` up to `to`.
fn slice_of(chars: &Vec<char>, from: usize, to: usize) -> (part: Vec<char>)
    requires
        from <= to <= chars.len(),
    ensures
        part@ == chars@.subrange(from as int, to as int),
{
    let mut part: Vec<char> = Vec::new();
    let mut i: usize = from;
    while i < to
        invariant
            from <= i <= to <= chars.len(),
            part@ == chars@.subrange(from as int, i as int),
        decreases to - i,
    {
        part.push(chars[i]);
        i += 1;
    }
    part
}

/// Creator and subdenom of `mint`, where it has at least three segments.
pub fn denom_parts(mint: &str) -> (parts: Option<(Vec<char>, Vec<char>)>)
    ensures
        match parts {
            Some((creator, subdenom)) => spec_denom_parts(mint@) == Some((creator@, subdenom@)),
            None => spec_denom_parts(mint@) is None,
        },
{
    let chars = chars_of(mint);
    let first = find_slash(&chars, 0);
    if first >= chars.len() {
        return None;
    }
    let second = find_slash(&chars, first + 1);
    if second >= chars.len() {
        return None;
    }
    let third = find_slash(&chars, second + 1);
    Some((slice_of(&chars, first + 1, second), slice_of(&chars, second + 1, third)))
}

/// `fragment` without its slashes and underscores.
pub fn sanitize(fragment: &Vec<char>) -> (clean: Vec<char>)
    ensures
        clean@ == spec_sanitize(fragment@),
{
    let ghost keep = |c: char| is_address_char(c);
    let mut clean: Vec<char> = Vec::new();
    let mut i: usize = 0;
    proof {
        reveal(Seq::filter);
    }
    while i < fragment.len()
        invariant
            i <= fragment.len(),
            keep == (|c: char| is_address_char(c)),
            clean@ == fragment@.take(i as int).filter(keep),
        decreases fragment.len() - i,
    {
        let c = fragment[i];
        proof {
            reveal(Seq::filter);
            assert(fragment@.take(i + 1).drop_last() == fragment@.take(i as int));
        }
        if c != '/' && c != '_' {
            clean.push(c);
        }
        i += 1;
    }
    assert(fragment@.take(fragment@.len() as int) == fragment@);
    clean
}

/// Two texts that read the same behind one prefix, each a fragment without
/// the separator, the separator, and a rest, are made of the same fragment
/// and the same rest.
proof fn lemma_joined_apart(
    prefix: Seq<char>,
    first: Seq<char>,
    rest: Seq<char>,
    other_first: Seq<char>,
    other_rest: Seq<char>,
)
    requires
        forall|i: int| 0 <= i < first.len() ==> first[i] != ADDRESS_SEPARATOR,
        forall|i: int| 0 <= i < other_first.len() ==> other_first[i] != ADDRESS_SEPARATOR,
        prefix + first + seq![ADDRESS_SEPARATOR] + rest == prefix + other_first + seq![ADDRESS_SEPARATOR]
            + other_rest,
    ensures
        first == other_first,
        rest == other_rest,
{
    let one = prefix + first + seq![ADDRESS_SEPARATOR] + rest;
    let two = prefix + other_first + seq![ADDRESS_SEPARATOR] + other_rest;
    let start = prefix.len() as int;
    assert(one[start + first.len()] == ADDRESS_SEPARATOR);
    assert(two[start + other_first.len()] == ADDRESS_SEPARATOR);
    if first.len() < other_first.len() {
        assert(two[start + first.len()] == other_first[first.len() as int]);
    }
    if other_first.len() < first.len() {
        assert(one[start + other_first.len()] == first[other_first.len() as int]);
    }
    assert(first.len() == other_first.len());
    assert(one.len() == two.len());
    assert forall|i: int| 0 <= i < first.len() implies first[i] == other_first[i] by {
        assert(one[start + i] == first[i]);
        assert(two[start + i] == other_first[i]);
    }
    assert(first =~= other_first);
    assert forall|i: int| 0 <= i < rest.len() implies rest[i] == other_rest[i] by {
        assert(one[start + first.len() + 1 + i] == rest[i]);
        assert(two[start + first.len() + 1 + i] == other_rest[i]);
    }
    assert(rest =~= other_rest);
}

/// Derived addresses do not collide: two vault accounts are the same text
/// only where the cleaned creators are the same and the cleaned subdenoms
/// are the same, and so it is with two custody wallets.
pub proof fn lemma_vault_addresses_apart(
    creator: Seq<char>,
    subdenom: Seq<char>,
    other_creator: Seq<char>,
    other_subdenom: Seq<char>,
)
    ensures
        spec_vault_account(creator, subdenom) == spec_vault_account(other_creator, other_subdenom)
            ==> spec_sanitize(creator) == spec_sanitize(other_creator) && spec_sanitize(subdenom)
            == spec_sanitize(other_subdenom),
        spec_vault_wallet(creator, subdenom) == spec_vault_wallet(other_creator, other_subdenom)
            ==> spec_sanitize(creator) == spec_sanitize(other_creator) && spec_sanitize(subdenom)
            == spec_sanitize(other_subdenom),
{
    lemma_sanitize_clean(creator);
    lemma_sanitize_clean(other_creator);
    if spec_vault_account(creator, subdenom) == spec_vault_account(other_creator, other_subdenom) {
        lemma_joined_apart(
            "inj1v"@,
            spec_sanitize(creator),
            spec_sanitize(subdenom),
            spec_sanitize(other_creator),
            spec_sanitize(other_subdenom),
        );
    }
    if spec_vault_wallet(creator, subdenom) == spec_vault_wallet(other_creator, other_subdenom) {
        lemma_joined_apart(
            "inj1i"@,
            spec_sanitize(creator),
            spec_sanitize(subdenom),
            spec_sanitize(other_creator),
            spec_sanitize(other_subdenom),
        );
    }
}

/// The vault account of an asset never is the custody wallet of an asset,
/// its own or another's.
pub proof fn lemma_account_is_no_wallet(
    creator: Seq<char>,
    subdenom: Seq<char>,
    other_creator: Seq<char>,
    other_subdenom: Seq<char>,
)
    ensures
        spec_vault_account(creator, subdenom) != spec_vault_wallet(other_creator, other_subdenom),
{
    reveal_strlit("inj1v");
    reveal_strlit("inj1i");
    let account = spec_vault_account(creator, subdenom);
    let wallet = spec_vault_wallet(other_creator, other_subdenom);
    assert(account[4] == 'v');
    assert(wallet[4] == 'i');
}

/// The vault account and the custody wallet derived from an identifier's
/// creator and subdenom: a prefix that tells the two apart, the cleaned
/// creator, the separator, the cleaned subdenom. The derivation is
/// deterministic and keeps different pairs of cleaned fragments apart; it is
/// not a cryptographic one.
pub fn derive_vault_addresses(creator: &Vec<char>, subdenom: &Vec<char>) -> (addresses: (String, String))
    ensures
        addresses.0@ == spec_vault_account(creator@, subdenom@),
        addresses.1@ == spec_vault_wallet(creator@, subdenom@),
{
    let clean_creator = sanitize(creator);
    let clean_subdenom = sanitize(subdenom);
    let mut vault_account = "inj1v".to_owned();
    append_chars(&mut vault_account, &clean_creator);
    push_char(&mut vault_account, ADDRESS_SEPARATOR);
    append_chars(&mut vault_account, &clean_subdenom);
    let mut wallet = "inj1i".to_owned();
    append_chars(&mut wallet, &clean_creator);
    push_char(&mut wallet, ADDRESS_SEPARATOR);
    append_chars(&mut wallet, &clean_subdenom);
    (vault_account, wallet)
}

} // verus!
