//! Laws of texts and of search queries.

use vstd::prelude::*;

use crate::category::{optional_part, search_parts, search_text, Category, StateFilter};
use crate::item::color_of_state;
use crate::style::Color;
use crate::text::{
    ascii_lower, decimal, end_position, is_white_space, joined, last_with_prefix,
    lemma_split_nonempty, lines_of, repeated, same_ignoring_case, split_newlines, trimmed,
    trimmed_end, trimmed_start,
};

verus! {

/// Leading white space is gone once it has been trimmed.
proof fn lemma_trimmed_start(s: Seq<char>)
    ensures
        trimmed_start(s).len() <= s.len(),
        trimmed_start(s).len() > 0 ==> !is_white_space(trimmed_start(s)[0]),
    decreases s.len(),
{
    if s.len() > 0 && is_white_space(s[0]) {
        lemma_trimmed_start(s.drop_first());
    }
}

/// Trimming the end keeps the first character of what is left.
proof fn lemma_trimmed_end(s: Seq<char>)
    ensures
        trimmed_end(s).len() <= s.len(),
        trimmed_end(s) =~= s.take(trimmed_end(s).len() as int),
        trimmed_end(s).len() > 0 ==> !is_white_space(trimmed_end(s).last()),
    decreases s.len(),
{
    if s.len() > 0 && is_white_space(s.last()) {
        lemma_trimmed_end(s.drop_last());
        assert(s.drop_last().take(trimmed_end(s).len() as int) =~= s.take(
            trimmed_end(s).len() as int,
        ));
    } else {
        assert(s.take(s.len() as int) =~= s);
    }
}

/// A trimmed text neither starts nor ends with white space.
pub proof fn law_trimmed_ends(s: Seq<char>)
    ensures
        trimmed(s).len() > 0 ==> !is_white_space(trimmed(s)[0]) && !is_white_space(
            trimmed(s).last(),
        ),
{
    lemma_trimmed_start(s);
    lemma_trimmed_end(trimmed_start(s));
}

/// Trimming twice is trimming once.
pub proof fn law_trim_twice(s: Seq<char>)
    ensures
        trimmed(trimmed(s)) == trimmed(s),
{
    law_trimmed_ends(s);
}

/// White space round the organization and round the query makes no difference
/// to a search.
pub proof fn law_search_ignores_outer_space(
    category: Category,
    state: StateFilter,
    organization: Seq<char>,
    extra: Seq<char>,
)
    ensures
        search_text(category, state, Some(organization), extra) == search_text(
            category,
            state,
            Some(trimmed(organization)),
            trimmed(extra),
        ),
{
    law_trim_twice(organization);
    law_trim_twice(extra);
}

/// A blank organization is no organization.
pub proof fn law_blank_organization(
    category: Category,
    state: StateFilter,
    organization: Seq<char>,
    extra: Seq<char>,
)
    requires
        trimmed(organization).len() == 0,
    ensures
        search_text(category, state, Some(organization), extra) == search_text(
            category,
            state,
            None,
            extra,
        ),
{
    assert(search_parts(category, state, Some(organization), extra) =~= search_parts(
        category,
        state,
        None,
        extra,
    ));
}

/// What joined parts start with.
proof fn lemma_joined_prefix(parts: Seq<Seq<char>>, sep: Seq<char>)
    requires
        parts.len() > 0,
    ensures
        parts[0].is_prefix_of(joined(parts, sep)),
    decreases parts.len(),
{
    if parts.len() > 1 {
        lemma_joined_prefix(parts.drop_last(), sep);
        let shorter = joined(parts.drop_last(), sep);
        let whole = joined(parts, sep);
        assert(whole.subrange(0, parts[0].len() as int) =~= shorter.subrange(
            0,
            parts[0].len() as int,
        ));
    } else {
        assert(parts[0].subrange(0, parts[0].len() as int) =~= parts[0]);
    }
}

/// Every search starts with the terms of its category, and so stays with the
/// user's own items.
pub proof fn law_search_starts_with_scope(
    category: Category,
    state: StateFilter,
    organization: Option<Seq<char>>,
    extra: Seq<char>,
)
    ensures
        category.scope().is_prefix_of(search_text(category, state, organization, extra)),
{
    let parts = search_parts(category, state, organization, extra);
    assert(parts[0] == category.scope());
    lemma_joined_prefix(parts, " "@);
}

/// Joined parts end as the last of them does.
proof fn lemma_joined_last(parts: Seq<Seq<char>>, sep: Seq<char>)
    requires
        parts.len() > 0,
        parts.last().len() > 0,
    ensures
        joined(parts, sep).len() > 0,
        joined(parts, sep).last() == parts.last().last(),
{
}

/// A search text is never empty, and neither begins nor ends with white space.
pub proof fn law_search_has_no_outer_space(
    category: Category,
    state: StateFilter,
    organization: Option<Seq<char>>,
    extra: Seq<char>,
)
    ensures
        search_text(category, state, organization, extra).len() > 0,
        !is_white_space(search_text(category, state, organization, extra)[0]),
        !is_white_space(search_text(category, state, organization, extra).last()),
{
    reveal_strlit("is:pr author:@me");
    reveal_strlit("is:issue author:@me");
    reveal_strlit("is:pr assignee:@me");
    reveal_strlit("is:issue assignee:@me");
    reveal_strlit("state:open");
    reveal_strlit("state:closed");
    let parts = search_parts(category, state, organization, extra);
    let text = search_text(category, state, organization, extra);
    let scope = category.scope();
    law_search_starts_with_scope(category, state, organization, extra);
    assert(text.subrange(0, scope.len() as int)[0] == text[0]);
    let name = trimmed(organization.unwrap_or(Seq::empty()));
    law_trimmed_ends(organization.unwrap_or(Seq::empty()));
    law_trimmed_ends(extra);
    if trimmed(extra).len() > 0 {
        assert(parts.last() == trimmed(extra));
    } else if state.term() is Some {
        assert(parts.last() == state.term().unwrap());
    } else if organization is Some && name.len() > 0 {
        assert(parts.last() == "org:"@ + name);
    } else {
        assert(parts.last() == scope);
    }
    lemma_joined_last(parts, " "@);
}

/// A search that nothing narrows is the category's terms alone.
pub proof fn law_unfiltered_search(category: Category)
    ensures
        search_text(category, StateFilter::All, None, Seq::empty()) == category.scope(),
{
    let parts = search_parts(category, StateFilter::All, None, Seq::empty());
    assert(parts =~= seq![category.scope()]);
}

/// The pieces between newlines hold no newline.
pub proof fn law_pieces_hold_no_newline(s: Seq<char>)
    ensures
        forall|i: int|
            0 <= i < split_newlines(s).len() ==> !(#[trigger] split_newlines(s)[i]).contains('\n'),
    decreases s.len(),
{
    if s.len() > 0 {
        law_pieces_hold_no_newline(s.drop_last());
        lemma_split_nonempty(s.drop_last());
        let before = split_newlines(s.drop_last());
        assert forall|i: int| 0 <= i < split_newlines(s).len() implies !(
        #[trigger] split_newlines(s)[i]).contains('\n') by {
            if i < before.len() - 1 {
                assert(split_newlines(s)[i] == before[i]);
            } else if i == before.len() - 1 {
                assert(!before[i].contains('\n'));
                if s.last() != '\n' {
                    let grown = before[i].push(s.last());
                    assert(split_newlines(s)[i] == grown);
                    if grown.contains('\n') {
                        let k = choose|k: int| 0 <= k < grown.len() && grown[k] == '\n';
                        assert(before[i][k] == '\n');
                    }
                }
            }
        }
    }
}

/// Joining with one more part.
proof fn lemma_joined_push(parts: Seq<Seq<char>>, part: Seq<char>, sep: Seq<char>)
    requires
        parts.len() > 0,
    ensures
        joined(parts.push(part), sep) == joined(parts, sep) + sep + part,
{
    assert(parts.push(part).drop_last() =~= parts);
}

/// Growing the last part grows what is joined.
proof fn lemma_joined_grow(parts: Seq<Seq<char>>, c: char, sep: Seq<char>)
    requires
        parts.len() > 0,
    ensures
        joined(parts.drop_last().push(parts.last().push(c)), sep) == joined(parts, sep).push(c),
{
    let grown = parts.drop_last().push(parts.last().push(c));
    if parts.len() == 1 {
        assert(grown[0] == parts[0].push(c));
    } else {
        assert(grown.drop_last() =~= parts.drop_last());
        assert(joined(grown, sep) =~= joined(parts, sep).push(c));
    }
}

/// Splitting at newlines loses nothing: joined again, the pieces are the text.
pub proof fn law_split_joins_back(s: Seq<char>)
    ensures
        joined(split_newlines(s), seq!['\n']) == s,
    decreases s.len(),
{
    if s.len() > 0 {
        law_split_joins_back(s.drop_last());
        lemma_split_nonempty(s.drop_last());
        let before = split_newlines(s.drop_last());
        if s.last() == '\n' {
            lemma_joined_push(before, Seq::empty(), seq!['\n']);
        } else {
            lemma_joined_grow(before, s.last(), seq!['\n']);
        }
        assert(joined(split_newlines(s), seq!['\n']) =~= s);
    }
}

/// A newline takes the cursor to the start of the next row; any other character
/// takes it one column on.
pub proof fn law_cursor_advances(text: Seq<char>, c: char)
    ensures
        c == '\n' ==> end_position(text.push(c)) == (
            (end_position(text).0 + 1) as nat,
            0nat,
        ),
        c != '\n' ==> end_position(text.push(c)) == (
            end_position(text).0,
            (end_position(text).1 + 1) as nat,
        ),
{
    lemma_split_nonempty(text);
    assert(text.push(c).drop_last() =~= text);
}

/// The cursor behind two texts: the rows of both add up, and the column is that
/// of the second, which goes on from the first where it holds no newline.
pub proof fn law_cursor_of_two_texts(first: Seq<char>, second: Seq<char>)
    ensures
        second.contains('\n') ==> end_position(first + second) == (
            (end_position(first).0 + end_position(second).0) as nat,
            end_position(second).1,
        ),
        !second.contains('\n') ==> end_position(first + second) == (
            end_position(first).0,
            (end_position(first).1 + second.len()) as nat,
        ),
        !second.contains('\n') ==> end_position(second) == (0nat, second.len()),
    decreases second.len(),
{
    if second.len() == 0 {
        assert(first + second =~= first);
        lemma_split_nonempty(first);
    } else {
        let (before, c) = (second.drop_last(), second.last());
        law_cursor_of_two_texts(first, before);
        law_cursor_advances(first + before, c);
        law_cursor_advances(before, c);
        assert(before.push(c) =~= second);
        assert((first + before).push(c) =~= first + second);
        assert(second[second.len() - 1] == c);
        if before.contains('\n') {
            let k = choose|k: int| 0 <= k < before.len() && before[k] == '\n';
            assert(second[k] == '\n');
        }
        if second.contains('\n') && c != '\n' {
            let k = choose|k: int| 0 <= k < second.len() && second[k] == '\n';
            assert(before[k] == '\n');
        }
    }
}

/// The line that is found is one of the lines and has the prefix, and no line
/// behind it has it; where none is found, none has it.
pub proof fn law_last_line_found(lines: Seq<Seq<char>>, prefix: Seq<char>)
    ensures
        match last_with_prefix(lines, prefix) {
            Some(found) => exists|i: int|
                0 <= i < lines.len() && #[trigger] lines[i] == found && prefix.is_prefix_of(found)
                    && forall|k: int|
                    i < k < lines.len() ==> !prefix.is_prefix_of(#[trigger] lines[k]),
            None => forall|i: int|
                0 <= i < lines.len() ==> !prefix.is_prefix_of(#[trigger] lines[i]),
        },
    decreases lines.len(),
{
    if lines.len() > 0 {
        if prefix.is_prefix_of(lines.last()) {
            let last = lines.len() - 1;
            assert(lines[last] == lines.last());
        } else {
            law_last_line_found(lines.drop_last(), prefix);
            let shorter = lines.drop_last();
            match last_with_prefix(shorter, prefix) {
                Some(found) => {
                    let i = choose|i: int|
                        0 <= i < shorter.len() && #[trigger] shorter[i] == found
                            && prefix.is_prefix_of(found) && forall|k: int|
                            i < k < shorter.len() ==> !prefix.is_prefix_of(#[trigger] shorter[k]);
                    assert(lines[i] == found);
                    assert forall|k: int| i < k < lines.len() implies !prefix.is_prefix_of(
                        #[trigger] lines[k],
                    ) by {
                        if k < shorter.len() {
                            assert(shorter[k] == lines[k]);
                        }
                    }
                },
                None => {
                    assert forall|k: int| 0 <= k < lines.len() implies !prefix.is_prefix_of(
                        #[trigger] lines[k],
                    ) by {
                        if k < shorter.len() {
                            assert(shorter[k] == lines[k]);
                        }
                    }
                },
            }
        }
    }
}

/// The number that decimal digits stand for.
pub open spec fn value_of(digits: Seq<char>) -> int
    decreases digits.len(),
{
    if digits.len() == 0 {
        0
    } else {
        10 * value_of(digits.drop_last()) + (digits.last() as int - '0' as int)
    }
}

/// A number written in decimal reads back as the same number.
pub proof fn law_decimal_reads_back(n: nat)
    ensures
        decimal(n).len() > 0,
        value_of(decimal(n)) == n,
    decreases n,
{
    if n < 10 {
        assert(decimal(n).drop_last() =~= Seq::empty());
        assert(value_of(decimal(n).drop_last()) == 0);
    } else {
        law_decimal_reads_back(n / 10);
        assert(decimal(n).drop_last() =~= decimal(n / 10));
    }
}

/// Whether all characters of a text are white space.
pub open spec fn all_white(s: Seq<char>) -> bool {
    forall|i: int| 0 <= i < s.len() ==> is_white_space(#[trigger] s[i])
}

/// What trimming the start cuts off.
proof fn lemma_start_cut(s: Seq<char>) -> (cut: Seq<char>)
    ensures
        all_white(cut),
        s == cut + trimmed_start(s),
    decreases s.len(),
{
    if s.len() > 0 && is_white_space(s[0]) {
        let behind = s.drop_first();
        let rest = lemma_start_cut(behind);
        let cut = seq![s[0]] + rest;
        assert forall|i: int| 0 <= i < cut.len() implies is_white_space(#[trigger] cut[i]) by {
            if i > 0 {
                assert(cut[i] == rest[i - 1]);
            }
        }
        assert(trimmed_start(s) == trimmed_start(behind));
        assert(s =~= seq![s[0]] + behind);
        assert(seq![s[0]] + (rest + trimmed_start(behind)) =~= cut + trimmed_start(behind));
        cut
    } else {
        let cut = Seq::<char>::empty();
        assert(s =~= cut + s);
        cut
    }
}

/// What trimming the end cuts off.
proof fn lemma_end_cut(s: Seq<char>) -> (cut: Seq<char>)
    ensures
        all_white(cut),
        s == trimmed_end(s) + cut,
    decreases s.len(),
{
    if s.len() > 0 && is_white_space(s.last()) {
        let before = s.drop_last();
        let rest = lemma_end_cut(before);
        let cut = rest.push(s.last());
        assert forall|i: int| 0 <= i < cut.len() implies is_white_space(#[trigger] cut[i]) by {
            if i < rest.len() {
                assert(cut[i] == rest[i]);
            }
        }
        assert(trimmed_end(s) == trimmed_end(before));
        assert(s =~= before.push(s.last()));
        assert((trimmed_end(before) + rest).push(s.last()) =~= trimmed_end(before) + cut);
        cut
    } else {
        let cut = Seq::<char>::empty();
        assert(s =~= s + cut);
        cut
    }
}

/// Trimming cuts off white space at the two ends and nothing else.
pub proof fn law_trim_cuts_white_space(s: Seq<char>)
    ensures
        exists|before: Seq<char>, behind: Seq<char>|
            #![trigger all_white(before), all_white(behind)]
            all_white(before) && all_white(behind) && s == before + trimmed(s) + behind,
{
    let before = lemma_start_cut(s);
    let behind = lemma_end_cut(trimmed_start(s));
    assert(s =~= before + trimmed(s) + behind);
}

/// Blanks, tabs, line ends and the wide blank are white space; printable ASCII
/// characters are not.
pub proof fn law_white_space(c: char)
    ensures
        c == ' ' || c == '\t' || c == '\n' || c == '\r' || c == '\u{3000}' ==> is_white_space(c),
        '!' <= c <= '~' ==> !is_white_space(c),
{
}

/// The terms of a category.
pub open spec fn category_terms(category: Category) -> Seq<char> {
    match category {
        Category::AuthoredPr => "is:pr author:@me"@,
        Category::AuthoredIssue => "is:issue author:@me"@,
        Category::AssignedPr => "is:pr assignee:@me"@,
        Category::AssignedIssue => "is:issue assignee:@me"@,
    }
}

/// What an organization adds to a search.
pub open spec fn organization_suffix(organization: Option<Seq<char>>) -> Seq<char> {
    match organization {
        Some(name) => if trimmed(name).len() > 0 {
            " org:"@ + trimmed(name)
        } else {
            Seq::empty()
        },
        None => Seq::empty(),
    }
}

/// What a state adds to a search.
pub open spec fn state_suffix(state: StateFilter) -> Seq<char> {
    match state {
        StateFilter::Open => " state:open"@,
        StateFilter::Closed => " state:closed"@,
        StateFilter::All => Seq::empty(),
    }
}

/// What the user's query adds to a search.
pub open spec fn query_suffix(extra: Seq<char>) -> Seq<char> {
    if trimmed(extra).len() > 0 {
        " "@ + trimmed(extra)
    } else {
        Seq::empty()
    }
}

/// Joining one more optional part.
proof fn lemma_optional_suffix(parts: Seq<Seq<char>>, present: bool, part: Seq<char>)
    requires
        parts.len() > 0,
    ensures
        joined(parts + optional_part(present, part), " "@) == joined(parts, " "@) + if present {
            " "@ + part
        } else {
            Seq::empty()
        },
{
    if present {
        assert(parts + seq![part] =~= parts.push(part));
        lemma_joined_push(parts, part, " "@);
        assert(joined(parts, " "@) + " "@ + part =~= joined(parts, " "@) + (" "@ + part));
    } else {
        assert(parts + Seq::empty() =~= parts);
        assert(joined(parts, " "@) =~= joined(parts, " "@) + Seq::empty());
    }
}

/// A search is the terms of its category, then the organization if it is not
/// blank, then the state unless it is all, then the user's query if it is not
/// blank, each behind a blank and each by its own filter alone.
pub proof fn law_search_term_by_term(
    category: Category,
    state: StateFilter,
    organization: Option<Seq<char>>,
    extra: Seq<char>,
)
    ensures
        search_text(category, state, organization, extra) == category_terms(category)
            + organization_suffix(organization) + state_suffix(state) + query_suffix(extra),
{
    reveal_strlit(" ");
    reveal_strlit("org:");
    reveal_strlit(" org:");
    reveal_strlit("state:open");
    reveal_strlit(" state:open");
    reveal_strlit("state:closed");
    reveal_strlit(" state:closed");
    let name = trimmed(organization.unwrap_or(Seq::empty()));
    let scope = seq![category.scope()];
    let org = optional_part(organization is Some && name.len() > 0, "org:"@ + name);
    let term = optional_part(state.term() is Some, state.term().unwrap_or(Seq::empty()));
    lemma_optional_suffix(scope, organization is Some && name.len() > 0, "org:"@ + name);
    lemma_optional_suffix(
        scope + org,
        state.term() is Some,
        state.term().unwrap_or(Seq::empty()),
    );
    lemma_optional_suffix(scope + org + term, trimmed(extra).len() > 0, trimmed(extra));
    assert(joined(scope, " "@) == category_terms(category));
    assert(" "@ + ("org:"@ + name) =~= " org:"@ + name);
    assert(" "@ + "state:open"@ =~= " state:open"@);
    assert(" "@ + "state:closed"@ =~= " state:closed"@);
}

/// An organization that is not blank is a term of every search, whatever the
/// other filters are, and so is a query that is not blank.
pub proof fn law_filters_are_terms(
    category: Category,
    state: StateFilter,
    organization: Seq<char>,
    extra: Seq<char>,
)
    ensures
        trimmed(organization).len() > 0 ==> search_parts(
            category,
            state,
            Some(organization),
            extra,
        ).contains("org:"@ + trimmed(organization)),
        trimmed(extra).len() > 0 ==> search_parts(
            category,
            state,
            Some(organization),
            extra,
        ).contains(trimmed(extra)),
        state == StateFilter::Open ==> search_parts(
            category,
            state,
            Some(organization),
            extra,
        ).contains("state:open"@),
        state == StateFilter::Closed ==> search_parts(
            category,
            state,
            Some(organization),
            extra,
        ).contains("state:closed"@),
{
    let parts = search_parts(category, state, Some(organization), extra);
    let named = trimmed(organization).len() > 0;
    if named {
        assert(parts[1] == "org:"@ + trimmed(organization));
    }
    if state != StateFilter::All {
        let at: int = if named {
            2
        } else {
            1
        };
        assert(parts[at] == state.term().unwrap());
    }
    if trimmed(extra).len() > 0 {
        assert(parts[parts.len() - 1] == trimmed(extra));
    }
}

/// The tabs and the terms of the states, by name.
pub proof fn law_names_of_the_filters(category: Category, state: StateFilter)
    ensures
        category.label() == match category {
            Category::AuthoredPr => "作成PR"@,
            Category::AuthoredIssue => "作成Issue"@,
            Category::AssignedPr => "担当PR"@,
            Category::AssignedIssue => "担当Issue"@,
        },
        state.term() == match state {
            StateFilter::Open => Some("state:open"@),
            StateFilter::Closed => Some("state:closed"@),
            StateFilter::All => None,
        },
{
}

/// Joining puts the separator between neighbours and nowhere else.
pub proof fn law_join_grows(parts: Seq<Seq<char>>, part: Seq<char>, sep: Seq<char>)
    ensures
        joined(Seq::empty(), sep) == Seq::<char>::empty(),
        joined(seq![part], sep) == part,
        parts.len() > 0 ==> joined(parts.push(part), sep) == joined(parts, sep) + sep + part,
{
    if parts.len() > 0 {
        lemma_joined_push(parts, part, sep);
    }
}

/// Repeating adds up.
pub proof fn law_repeated(unit: Seq<char>, m: nat, n: nat)
    ensures
        repeated(unit, 0) == Seq::<char>::empty(),
        repeated(unit, 1) == unit,
        repeated(unit, m + n) == repeated(unit, m) + repeated(unit, n),
    decreases n,
{
    reveal_with_fuel(repeated, 2);
    assert(repeated(unit, 1) =~= unit);
    if n > 0 {
        law_repeated(unit, m, (n - 1) as nat);
        assert((m + n - 1) as nat == m + (n - 1) as nat);
        assert(repeated(unit, m + n) =~= repeated(unit, m) + repeated(unit, n));
    } else {
        assert(repeated(unit, m) =~= repeated(unit, m) + Seq::<char>::empty());
    }
}

/// A number is written with digits alone, and with no zero in front.
pub proof fn law_decimal_digits(n: nat)
    ensures
        decimal(n).len() > 0,
        forall|i: int| 0 <= i < decimal(n).len() ==> '0' <= #[trigger] decimal(n)[i] <= '9',
        n > 0 ==> decimal(n)[0] != '0',
        n == 0 ==> decimal(n) == seq!['0'],
    decreases n,
{
    if n >= 10 {
        law_decimal_digits(n / 10);
    }
}

/// Splitting behind a newline: what stands before the first newline is the first
/// piece, and the rest is split by itself.
pub proof fn law_split_first_line(line: Seq<char>, rest: Seq<char>)
    requires
        !line.contains('\n'),
    ensures
        split_newlines(line) == seq![line],
        split_newlines(line + seq!['\n'] + rest) == seq![line] + split_newlines(rest),
    decreases line.len() + rest.len(),
{
    lemma_split_one(line);
    let head = line + seq!['\n'];
    if rest.len() == 0 {
        assert(head + rest =~= line.push('\n'));
        assert(line.push('\n').drop_last() =~= line);
        assert(split_newlines(head + rest) =~= seq![line] + split_newlines(rest));
    } else {
        law_split_first_line(line, rest.drop_last());
        lemma_split_nonempty(rest.drop_last());
        assert((head + rest).drop_last() =~= head + rest.drop_last());
        let before = split_newlines(rest.drop_last());
        assert((seq![line] + before).drop_last() =~= seq![line] + before.drop_last());
        assert((seq![line] + before).last() == before.last());
        assert(split_newlines(head + rest) =~= seq![line] + split_newlines(rest));
    }
}

proof fn lemma_split_one(line: Seq<char>)
    requires
        !line.contains('\n'),
    ensures
        split_newlines(line) == seq![line],
    decreases line.len(),
{
    if line.len() > 0 {
        let before = line.drop_last();
        assert(line[line.len() - 1] == line.last());
        assert(line.last() != '\n');
        assert(!before.contains('\n')) by {
            if before.contains('\n') {
                let k = choose|k: int| 0 <= k < before.len() && before[k] == '\n';
                assert(line[k] == '\n');
            }
        }
        lemma_split_one(before);
        assert(seq![before].drop_last() =~= Seq::empty());
        assert(before.push(line.last()) =~= line);
        assert(split_newlines(line) =~= seq![line]);
    } else {
        assert(line =~= Seq::empty());
    }
}

/// The lines of a text, first to last: a line ends at its newline, and a carriage
/// return before that belongs to neither; a last line without a newline is kept
/// as it is, unless it is empty.
pub proof fn law_lines(line: Seq<char>, rest: Seq<char>)
    requires
        !line.contains('\n'),
    ensures
        line.len() > 0 ==> lines_of(line) == seq![line],
        lines_of(Seq::empty()) == Seq::<Seq<char>>::empty(),
        lines_of(line + seq!['\n'] + rest) == seq![
            if line.len() > 0 && line.last() == '\r' {
                line.drop_last()
            } else {
                line
            },
        ] + lines_of(rest),
{
    law_split_first_line(line, rest);
    law_split_first_line(Seq::empty(), rest);
    lemma_split_nonempty(rest);
    assert(!Seq::<char>::empty().contains('\n'));
    let pieces = split_newlines(rest);
    assert((seq![line] + pieces).drop_last() =~= seq![line] + pieces.drop_last());
    assert((seq![line] + pieces).last() == pieces.last());
    assert(seq![line].drop_last() =~= Seq::empty());
    assert(lines_of(Seq::empty()) =~= Seq::<Seq<char>>::empty());
    if line.len() > 0 {
        assert(lines_of(line) =~= seq![line]);
    }
    let whole = lines_of(line + seq!['\n'] + rest);
    let first = if line.len() > 0 && line.last() == '\r' {
        line.drop_last()
    } else {
        line
    };
    assert(whole =~= seq![first] + lines_of(rest));
}

/// The cursor of an empty text is at the start.
pub proof fn law_cursor_starts_at_zero()
    ensures
        end_position(Seq::empty()) == (0nat, 0nat),
{
}

/// The colour of a state does not depend on the case of its letters, and only
/// these words have one of their own: open, closed and merged.
pub proof fn law_state_colors(state: Seq<char>)
    ensures
        color_of_state(state) == if reads(state, "open"@, "OPEN"@) {
            Color::Green
        } else if reads(state, "closed"@, "CLOSED"@) || reads(state, "merged"@, "MERGED"@) {
            Color::Yellow
        } else {
            Color::Cyan
        },
{
    reveal_strlit("open");
    reveal_strlit("OPEN");
    reveal_strlit("closed");
    reveal_strlit("CLOSED");
    reveal_strlit("merged");
    reveal_strlit("MERGED");
    lemma_reads(state, "open"@, "OPEN"@);
    lemma_reads(state, "closed"@, "CLOSED"@);
    lemma_reads(state, "merged"@, "MERGED"@);
}

/// Whether each letter of a text is that of a word, in either case.
pub open spec fn reads(text: Seq<char>, lower: Seq<char>, upper: Seq<char>) -> bool {
    text.len() == lower.len() && forall|i: int|
        0 <= i < text.len() ==> #[trigger] text[i] == lower[i] || text[i] == upper[i]
}

proof fn lemma_reads(text: Seq<char>, lower: Seq<char>, upper: Seq<char>)
    requires
        lower.len() == upper.len(),
        forall|i: int| 0 <= i < lower.len() ==> 'a' <= #[trigger] lower[i] <= 'z',
        forall|i: int|
            0 <= i < lower.len() ==> #[trigger] upper[i] as int + 32 == lower[i] as int,
    ensures
        same_ignoring_case(text, lower) == reads(text, lower, upper),
{
    if same_ignoring_case(text, lower) {
        assert forall|i: int| 0 <= i < text.len() implies #[trigger] text[i] == lower[i] || text[i]
            == upper[i] by {
            assert(ascii_lower(text[i]) == ascii_lower(lower[i]));
            assert('a' <= lower[i] <= 'z');
            assert(upper[i] as int + 32 == lower[i] as int);
        }
    }
    if reads(text, lower, upper) {
        assert forall|i: int| 0 <= i < text.len() implies ascii_lower(#[trigger] text[i])
            == ascii_lower(lower[i]) by {
            assert('a' <= lower[i] <= 'z');
            assert(upper[i] as int + 32 == lower[i] as int);
        }
    }
}

} // verus!
