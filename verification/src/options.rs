//! The composite option string: option tokens joined by commas, at most one
//! for each category. A category is known by the prefix of its tokens.

use crate::text::{
    free_of, join, joined, lemma_filter_commutes, lemma_filter_drops_all, lemma_filter_keeps_all,
    lemma_filter_members, lemma_filter_push, lemma_pieces_across, lemma_pieces_are_free,
    lemma_pieces_of_free, lemma_pieces_of_joined, pieces, split, starts_with, views,
};
use vstd::prelude::*;
use vstd::string::*;

verus! {

/// The test that a token does not begin with `prefix`.
pub open spec fn unprefixed(prefix: Seq<char>) -> spec_fn(Seq<char>) -> bool {
    |token: Seq<char>| !prefix.is_prefix_of(token)
}

/// The test that a token is not empty.
pub open spec fn nonempty() -> spec_fn(Seq<char>) -> bool {
    |token: Seq<char>| token.len() > 0
}

/// The tokens with the replacement behind them, if there is one.
pub open spec fn with_replacement(
    tokens: Seq<Seq<char>>,
    replacement: Option<Seq<char>>,
) -> Seq<Seq<char>> {
    match replacement {
        Some(token) => tokens.push(token),
        None => tokens,
    }
}

/// The composite option string after a merge: the pieces of `existing`
/// between its commas without those that begin with `prefix`, then the
/// replacement, all without the empty ones, joined by commas.
pub open spec fn merged(
    existing: Seq<char>,
    prefix: Seq<char>,
    replacement: Option<Seq<char>>,
) -> Seq<char> {
    joined(
        with_replacement(pieces(existing, ',').filter(unprefixed(prefix)), replacement).filter(
            nonempty(),
        ),
        ","@,
    )
}

/// The test that a token begins with `prefix`.
pub open spec fn prefixed(prefix: Seq<char>) -> spec_fn(Seq<char>) -> bool {
    |token: Seq<char>| prefix.is_prefix_of(token)
}

/// The tokens of a composite option string: its pieces between the commas,
/// without the empty ones.
pub open spec fn tokens(composite: Seq<char>) -> Seq<Seq<char>> {
    pieces(composite, ',').filter(nonempty())
}

/// The tokens that a replacement brings: none if there is no replacement.
pub open spec fn replacement_tokens(replacement: Option<Seq<char>>) -> Seq<Seq<char>> {
    match replacement {
        Some(token) => tokens(token),
        None => Seq::empty(),
    }
}

/// A token as the merger gives them out: not empty and without a comma.
pub open spec fn plain(token: Seq<char>) -> bool {
    token.len() > 0 && free_of(token, ',')
}

/// The text that an optional string slice holds.
pub open spec fn optional_view(text: Option<&str>) -> Option<Seq<char>> {
    match text {
        Some(t) => Some(t@),
        None => None,
    }
}

/// Replaces the option of one category in a composite option string: every
/// token that begins with `prefix` leaves, and `replacement` is added at the
/// end if it is there and not empty. Empty tokens leave as well.
pub fn merge(existing: &str, prefix: &str, replacement: Option<&str>) -> (composite: String)
    ensures
        composite@ == merged(existing@, prefix@, optional_view(replacement)),
{
    let parts = split(existing, ',');
    let mut kept: Vec<&str> = Vec::new();
    let mut i: usize = 0;
    proof {
        reveal(Seq::filter);
    }
    while i < parts.len()
        invariant
            i <= parts.len(),
            views(kept@) == views(parts@).take(i as int).filter(unprefixed(prefix@)).filter(
                nonempty(),
            ),
        decreases parts.len() - i,
    {
        let token = parts[i];
        let keep = !starts_with(token, prefix) && !token.is_empty();
        proof {
            let before = views(parts@).take(i as int);
            assert(views(parts@).take(i + 1) == before.push(token@));
            lemma_filter_push(before, token@, unprefixed(prefix@));
            lemma_filter_push(before.filter(unprefixed(prefix@)), token@, nonempty());
        }
        if keep {
            kept.push(token);
        }
        i += 1;
    }
    proof {
        assert(views(parts@).take(parts.len() as int) == views(parts@));
    }
    match replacement {
        Some(token) => {
            proof {
                lemma_filter_push(
                    pieces(existing@, ',').filter(unprefixed(prefix@)),
                    token@,
                    nonempty(),
                );
                assert(views(kept@.push(token)) == views(kept@).push(token@));
            }
            if !token.is_empty() {
                kept.push(token);
            }
        },
        None => {},
    }
    join(&kept, ",")
}

/// The tokens of each part, one part after the other.
spec fn tokens_of_each(parts: Seq<Seq<char>>) -> Seq<Seq<char>>
    decreases parts.len(),
{
    if parts.len() == 0 {
        Seq::empty()
    } else {
        tokens_of_each(parts.drop_last()) + tokens(parts.last())
    }
}

/// A plain token is the one token of itself.
proof fn lemma_tokens_of_plain(token: Seq<char>)
    requires
        plain(token),
    ensures
        tokens(token) == seq![token],
{
    lemma_pieces_of_free(token, ',');
    lemma_filter_push(Seq::<Seq<char>>::empty(), token, nonempty());
}

/// Every token of a composite option string is plain.
pub proof fn lemma_tokens_are_plain(composite: Seq<char>)
    ensures
        forall|i: int| 0 <= i < tokens(composite).len() ==> plain(#[trigger] tokens(composite)[i]),
{
    lemma_filter_members(pieces(composite, ','), nonempty());
    lemma_pieces_are_free(composite, ',');
}

/// Plain tokens are the tokens of themselves.
proof fn lemma_tokens_of_each_plain(parts: Seq<Seq<char>>)
    requires
        forall|i: int| 0 <= i < parts.len() ==> plain(#[trigger] parts[i]),
    ensures
        tokens_of_each(parts) == parts,
    decreases parts.len(),
{
    if parts.len() > 0 {
        lemma_tokens_of_each_plain(parts.drop_last());
        lemma_tokens_of_plain(parts.last());
    }
}

/// The tokens of each part of two lists are those of the first list, then
/// those of the second.
proof fn lemma_tokens_of_each_add(a: Seq<Seq<char>>, b: Seq<Seq<char>>)
    ensures
        tokens_of_each(a + b) == tokens_of_each(a) + tokens_of_each(b),
    decreases b.len(),
{
    if b.len() > 0 {
        assert((a + b).drop_last() == a + b.drop_last());
        lemma_tokens_of_each_add(a, b.drop_last());
    }
}

/// Joining parts with commas keeps their tokens and makes no new one.
proof fn lemma_tokens_of_joined(parts: Seq<Seq<char>>)
    ensures
        tokens(joined(parts, ","@)) == tokens_of_each(parts),
    decreases parts.len(),
{
    reveal_strlit(",");
    assert(","@ == seq![',']);
    if parts.len() == 0 {
        lemma_filter_drops_all(seq![Seq::<char>::empty()], nonempty());
    } else if parts.len() == 1 {
        assert(tokens_of_each(parts.drop_last()) == Seq::<Seq<char>>::empty());
    } else {
        lemma_tokens_of_joined(parts.drop_last());
        lemma_pieces_across(joined(parts.drop_last(), ","@), parts.last(), ',');
    }
}

/// What a merge hands to the join: the tokens that stay, then the
/// replacement if it is not empty.
proof fn lemma_merged_parts(existing: Seq<char>, prefix: Seq<char>, replacement: Option<Seq<char>>)
    ensures
        with_replacement(pieces(existing, ',').filter(unprefixed(prefix)), replacement).filter(
            nonempty(),
        ) == tokens(existing).filter(unprefixed(prefix)) + match replacement {
            Some(token) if token.len() > 0 => seq![token],
            _ => Seq::empty(),
        },
{
    lemma_filter_commutes(pieces(existing, ','), unprefixed(prefix), nonempty());
    if let Some(token) = replacement {
        lemma_filter_push(pieces(existing, ',').filter(unprefixed(prefix)), token, nonempty());
    }
}

/// A merge keeps the tokens that are not of the category, in their order,
/// and puts the tokens of the replacement behind them. Nothing else is in
/// its result.
pub proof fn lemma_merge_tokens(
    existing: Seq<char>,
    prefix: Seq<char>,
    replacement: Option<Seq<char>>,
)
    ensures
        tokens(merged(existing, prefix, replacement)) == tokens(existing).filter(
            unprefixed(prefix),
        ) + replacement_tokens(replacement),
{
    let stay = tokens(existing).filter(unprefixed(prefix));
    let added: Seq<Seq<char>> = match replacement {
        Some(token) if token.len() > 0 => seq![token],
        _ => Seq::empty(),
    };
    lemma_merged_parts(existing, prefix, replacement);
    lemma_tokens_of_joined(stay + added);
    lemma_tokens_of_each_add(stay, added);
    lemma_tokens_are_plain(existing);
    lemma_filter_members(tokens(existing), unprefixed(prefix));
    lemma_tokens_of_each_plain(stay);
    if let Some(token) = replacement {
        if token.len() > 0 {
            assert(added.drop_last() == Seq::<Seq<char>>::empty());
            assert(tokens_of_each(Seq::<Seq<char>>::empty()) == Seq::<Seq<char>>::empty());
        } else {
            lemma_filter_drops_all(seq![token], nonempty());
        }
    }
}

/// A merge without a replacement removes every token of the category and
/// changes nothing else: the other tokens stay, in their order.
pub proof fn lemma_merge_removes_category(existing: Seq<char>, prefix: Seq<char>)
    ensures
        tokens(merged(existing, prefix, None)) == tokens(existing).filter(unprefixed(prefix)),
        tokens(merged(existing, prefix, None)).filter(prefixed(prefix)) == Seq::<
            Seq<char>,
        >::empty(),
{
    let stay = tokens(existing).filter(unprefixed(prefix));
    lemma_merge_tokens(existing, prefix, None);
    lemma_filter_drops_all(stay, prefixed(prefix));
}

/// Merging a second time with the same prefix and the same replacement
/// gives the result of the first merge again, where every token of the
/// replacement is of the category. A replacement with a token of another
/// category is added once more by each merge.
pub proof fn lemma_merge_idempotent(
    existing: Seq<char>,
    prefix: Seq<char>,
    replacement: Option<Seq<char>>,
)
    requires
        replacement_tokens(replacement).filter(unprefixed(prefix)) == Seq::<Seq<char>>::empty(),
    ensures
        merged(merged(existing, prefix, replacement), prefix, replacement) == merged(
            existing,
            prefix,
            replacement,
        ),
{
    lemma_merge_tokens(existing, prefix, replacement);
    lemma_merged_parts(existing, prefix, replacement);
    lemma_merged_parts(merged(existing, prefix, replacement), prefix, replacement);
    lemma_filter_keeps_all(tokens(existing).filter(unprefixed(prefix)), unprefixed(prefix));
}

/// Where the replacement holds a token that is not of the category, a
/// second merge does not give the result of the first: that token stays and
/// the replacement is added behind it once more.
pub proof fn lemma_merge_repeats_other_tokens(
    existing: Seq<char>,
    prefix: Seq<char>,
    replacement: Option<Seq<char>>,
)
    requires
        replacement_tokens(replacement).filter(unprefixed(prefix)).len() > 0,
    ensures
        merged(merged(existing, prefix, replacement), prefix, replacement) != merged(
            existing,
            prefix,
            replacement,
        ),
{
    lemma_merge_tokens(existing, prefix, replacement);
    lemma_merge_tokens(merged(existing, prefix, replacement), prefix, replacement);
    lemma_filter_keeps_all(tokens(existing).filter(unprefixed(prefix)), unprefixed(prefix));
}

/// After a merge with a plain replacement of the category, the composite
/// option string holds one token of the category, the replacement, and it
/// is the last of all.
pub proof fn lemma_merge_leaves_one(existing: Seq<char>, prefix: Seq<char>, token: Seq<char>)
    requires
        plain(token),
        prefix.is_prefix_of(token),
    ensures
        tokens(merged(existing, prefix, Some(token))).filter(prefixed(prefix)) == seq![token],
        tokens(merged(existing, prefix, Some(token))).last() == token,
{
    let stay = tokens(existing).filter(unprefixed(prefix));
    lemma_merge_tokens(existing, prefix, Some(token));
    lemma_tokens_of_plain(token);
    lemma_filter_drops_all(stay, prefixed(prefix));
    lemma_filter_keeps_all(seq![token], prefixed(prefix));
}

/// After a merge the composite option string holds at most one token of
/// the category, where the replacement is no more than one token.
pub proof fn lemma_merge_leaves_at_most_one(
    existing: Seq<char>,
    prefix: Seq<char>,
    replacement: Option<Seq<char>>,
)
    requires
        replacement matches Some(token) ==> free_of(token, ','),
    ensures
        tokens(merged(existing, prefix, replacement)).filter(prefixed(prefix)).len() <= 1,
{
    lemma_merge_tokens(existing, prefix, replacement);
    lemma_filter_drops_all(tokens(existing).filter(unprefixed(prefix)), prefixed(prefix));
    if let Some(token) = replacement {
        lemma_pieces_of_free(token, ',');
    }
}

/// A merge gives out no empty token, where the replacement is no more than
/// one token: either its result is empty, or every piece between its
/// commas is a token.
pub proof fn lemma_merge_emits_no_empty_token(
    existing: Seq<char>,
    prefix: Seq<char>,
    replacement: Option<Seq<char>>,
)
    requires
        replacement matches Some(token) ==> free_of(token, ','),
    ensures
        merged(existing, prefix, replacement).len() == 0 || pieces(
            merged(existing, prefix, replacement),
            ',',
        ) == tokens(merged(existing, prefix, replacement)),
{
    let parts = with_replacement(
        pieces(existing, ',').filter(unprefixed(prefix)),
        replacement,
    ).filter(nonempty());
    reveal_strlit(",");
    assert(","@ == seq![',']);
    lemma_merged_parts(existing, prefix, replacement);
    lemma_tokens_are_plain(existing);
    lemma_filter_members(tokens(existing), unprefixed(prefix));
    if parts.len() > 0 {
        lemma_pieces_of_joined(parts, ',');
        lemma_filter_keeps_all(parts, nonempty());
    }
}

} // verus!
