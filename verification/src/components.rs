//! The paginated MVP list panel: its button identifiers and page arithmetic.
use vstd::prelude::*;
use crate::i18n::keys::I18nKey;
use crate::i18n::locale::{is_literal, BotLocale};
use crate::i18n::translator::{translate, translate_spec};
use crate::numbers::{
    all_digits, decimal, lemma_decimal_digits, lemma_parse_decimal, parse_nat_text,
    parse_usize_chars, parse_usize_spec, push_decimal,
};
use crate::text::{
    chars_of, find_char, first_index_of, has_char, has_prefix, lemma_first_index_absent,
    lemma_first_index_after, owned, split_on, starts_with,
};

verus! {

/// The prefix of the custom id of every MVP list button.
pub const MVP_LIST_COMPONENT_PREFIX: &'static str = "mvp_list:";

/// The largest number of lines shown on one page of the MVP list.
pub const MVP_LIST_PAGE_SIZE_LIMIT: usize = 10;

/// The page asked for by a button press.
#[derive(Debug, Clone, Copy, PartialEq, Eq, Structural)]
pub struct MvpListPageRequest {
    pub page: usize,
    pub page_size: usize,
}

/// The navigation actions a button can carry.
pub open spec fn is_page_action(action: Seq<char>) -> bool {
    action == "first"@ || action == "previous"@ || action == "next"@ || action == "last"@
}

/// A custom id `mvp_list:<page>:<page_size>:<action>` with both numbers readable as
/// `usize`, a non-zero page size, a known action and nothing after it.
pub open spec fn parse_component_spec(id: Seq<char>) -> Option<MvpListPageRequest> {
    if !has_prefix(id, "mvp_list:"@) {
        None
    } else {
        let parts = split_on(id.skip(9), ':');
        if parts.len() == 3 && parse_usize_spec(parts[0]) is Some && parse_usize_spec(parts[1])
            is Some && parse_usize_spec(parts[1])->0 != 0 && is_page_action(parts[2]) {
            Some(
                MvpListPageRequest {
                    page: parse_usize_spec(parts[0])->0,
                    page_size: parse_usize_spec(parts[1])->0,
                },
            )
        } else {
            None
        }
    }
}

pub open spec fn component_id_spec(action: Seq<char>, page: usize, page_size: usize) -> Seq<char> {
    "mvp_list:"@ + decimal(page as nat) + ":"@ + decimal(page_size as nat) + ":"@ + action
}

fn is_page_action_exec(action: &[char]) -> (r: bool)
    ensures
        r == is_page_action(action@),
{
    is_literal(action, "first") || is_literal(action, "previous") || is_literal(action, "next")
        || is_literal(action, "last")
}

pub fn parse_mvp_list_component_id(custom_id: &str) -> (r: Option<MvpListPageRequest>)
    ensures
        r == parse_component_spec(custom_id@),
{
    proof {
        reveal_strlit("mvp_list:");
    }
    let cs = chars_of(custom_id);
    let prefix = chars_of(MVP_LIST_COMPONENT_PREFIX);
    if !starts_with(cs.as_slice(), prefix.as_slice()) {
        return None;
    }
    let payload = &cs.as_slice()[9..cs.len()];
    assert(payload@ == custom_id@.skip(9));
    let ghost parts = split_on(payload@, ':');
    let i1 = match find_char(payload, ':') {
        Some(i) => i,
        None => {
            assert(parts.len() == 1);
            return None;
        },
    };
    let first = &payload[0..i1];
    let rest1 = &payload[i1 + 1..payload.len()];
    assert(first@ == payload@.take(i1 as int));
    assert(rest1@ == payload@.skip(i1 + 1));
    assert(parts == seq![first@] + split_on(rest1@, ':'));
    let i2 = match find_char(rest1, ':') {
        Some(i) => i,
        None => {
            assert(parts.len() == 2);
            return None;
        },
    };
    let second = &rest1[0..i2];
    let third = &rest1[i2 + 1..rest1.len()];
    assert(second@ == rest1@.take(i2 as int));
    assert(third@ == rest1@.skip(i2 + 1));
    assert(split_on(rest1@, ':') == seq![second@] + split_on(third@, ':'));
    match find_char(third, ':') {
        Some(j) => {
            assert(first_index_of(third@, ':') == Some(j as nat));
            assert(split_on(third@.skip(j as int + 1), ':').len() >= 1);
            assert(split_on(third@, ':').len() >= 2);
            assert(parts.len() > 3);
            return None;
        },
        None => {},
    }
    assert(split_on(third@, ':') == seq![third@]);
    assert(parts =~= seq![first@, second@, third@]);
    let page = match parse_usize_chars(first) {
        Some(p) => p,
        None => return None,
    };
    let page_size = match parse_usize_chars(second) {
        Some(p) => p,
        None => return None,
    };
    if page_size == 0 || !is_page_action_exec(third) {
        return None;
    }
    Some(MvpListPageRequest { page, page_size })
}

pub fn mvp_list_component_id(action: &str, page: usize, page_size: usize) -> (r: String)
    ensures
        r@ == component_id_spec(action@, page, page_size),
{
    let mut out = owned(MVP_LIST_COMPONENT_PREFIX);
    push_decimal(&mut out, page as u64);
    out.append(":");
    push_decimal(&mut out, page_size as u64);
    out.append(":");
    out.append(action);
    assert(out@ =~= component_id_spec(action@, page, page_size));
    out
}

proof fn lemma_decimal_has_no_colon(n: nat)
    ensures
        !has_char(decimal(n), ':'),
{
    lemma_decimal_digits(n);
    if has_char(decimal(n), ':') {
        let i = choose|i: int| 0 <= i < decimal(n).len() && decimal(n)[i] == ':';
        assert(crate::numbers::is_digit(decimal(n)[i]));
    }
}

proof fn lemma_parse_usize_decimal(n: usize)
    ensures
        parse_usize_spec(decimal(n as nat)) == Some(n),
{
    lemma_parse_decimal(n as nat);
}

/// A button id built for a known action and a non-zero page size reads back as the
/// same page and page size.
pub proof fn lemma_component_id_round_trip(action: Seq<char>, page: usize, page_size: usize)
    requires
        is_page_action(action),
        page_size > 0,
    ensures
        parse_component_spec(component_id_spec(action, page, page_size)) == Some(
            MvpListPageRequest { page, page_size },
        ),
{
    reveal_strlit("mvp_list:");
    reveal_strlit(":");
    reveal_strlit("first");
    reveal_strlit("previous");
    reveal_strlit("next");
    reveal_strlit("last");
    let id = component_id_spec(action, page, page_size);
    let a = decimal(page as nat);
    let b = decimal(page_size as nat);
    let payload = a + seq![':'] + (b + seq![':'] + action);
    assert(id =~= "mvp_list:"@ + payload);
    assert(id.take(9) =~= "mvp_list:"@);
    assert(id.skip(9) =~= payload);
    lemma_decimal_has_no_colon(page as nat);
    lemma_decimal_has_no_colon(page_size as nat);
    assert(!has_char(action, ':')) by {
        if has_char(action, ':') {
            let i = choose|i: int| 0 <= i < action.len() && action[i] == ':';
            assert(action[i] == ':');
        }
    }
    lemma_first_index_after(a, ':', b + seq![':'] + action);
    lemma_first_index_after(b, ':', action);
    lemma_first_index_absent(action, ':');
    assert(split_on(action, ':') == seq![action]);
    assert(split_on(b + seq![':'] + action, ':') =~= seq![b] + seq![action]);
    assert(split_on(payload, ':') =~= seq![a] + (seq![b] + seq![action]));
    lemma_parse_usize_decimal(page);
    lemma_parse_usize_decimal(page_size);
}

/// Each of the panel's four navigation buttons (`first`, `previous`, `next`, `last`)
/// reads back as the page and page size it was written with.
pub proof fn lemma_panel_buttons_read_back(page: usize, page_size: usize)
    requires
        page_size > 0,
    ensures
        parse_component_spec(component_id_spec("first"@, page, page_size)) == Some(
            MvpListPageRequest { page, page_size },
        ),
        parse_component_spec(component_id_spec("previous"@, page, page_size)) == Some(
            MvpListPageRequest { page, page_size },
        ),
        parse_component_spec(component_id_spec("next"@, page, page_size)) == Some(
            MvpListPageRequest { page, page_size },
        ),
        parse_component_spec(component_id_spec("last"@, page, page_size)) == Some(
            MvpListPageRequest { page, page_size },
        ),
{
    lemma_component_id_round_trip("first"@, page, page_size);
    lemma_component_id_round_trip("previous"@, page, page_size);
    lemma_component_id_round_trip("next"@, page, page_size);
    lemma_component_id_round_trip("last"@, page, page_size);
}

/// The number of pages needed for `total_count` lines, at least one.
pub open spec fn page_count_spec(total_count: nat, page_size: nat) -> nat {
    let size = if page_size == 0 { 1 } else { page_size };
    let pages = if total_count % size == 0 { total_count / size } else { total_count / size + 1 };
    if pages == 0 { 1 } else { pages }
}

pub fn mvp_list_page_count(total_count: usize, page_size: usize) -> (r: usize)
    ensures
        r == page_count_spec(total_count as nat, page_size as nat),
{
    let size = if page_size == 0 { 1 } else { page_size };
    let q = total_count / size;
    let pages = if total_count % size == 0 {
        q
    } else {
        assert(size >= 2);
        assert(q < total_count) by (nonlinear_arith)
            requires
                size >= 2,
                q == total_count / size,
                total_count % size != 0,
        ;
        q + 1
    };
    if pages == 0 { 1 } else { pages }
}

/// The configured display limit as a page size, between 1 and 10.
pub fn mvp_list_max_page_size(configured_max: u32) -> (r: usize)
    ensures
        r == (if configured_max < 1 { 1 } else if configured_max > 10 { 10 } else {
            configured_max as int
        }),
{
    if configured_max < 1 {
        1
    } else if configured_max > 10 {
        MVP_LIST_PAGE_SIZE_LIMIT
    } else {
        configured_max as usize
    }
}

/// The page shown: the one asked for, or the last page when it is past the end.
pub fn clamp_mvp_list_page(page: usize, total_count: usize, page_size: usize) -> (r: usize)
    ensures
        r == (if page < page_count_spec(total_count as nat, page_size as nat) {
            page as int
        } else {
            page_count_spec(total_count as nat, page_size as nat) - 1
        }),
{
    let last = mvp_list_page_count(total_count, page_size) - 1;
    if page < last {
        page
    } else {
        last
    }
}

/// The page and page size an MVP list panel shows: the page size asked for kept
/// between one and the configured maximum, then the page kept within the pages.
pub fn mvp_list_view(page: usize, page_size: usize, configured_max: u32, line_count: usize) -> (r:
    (usize, usize))
    ensures
        ({
            let max: int = if configured_max < 1 { 1 } else if configured_max > 10 { 10 } else {
                configured_max as int
            };
            let size: int = if page_size < 1 { 1 } else if page_size > max { max } else {
                page_size as int
            };
            let count = page_count_spec(line_count as nat, size as nat);
            &&& r.1 == size
            &&& r.0 == (if page < count { page as int } else { count - 1 })
        }),
{
    let max = mvp_list_max_page_size(configured_max);
    let size = if page_size < 1 {
        1
    } else if page_size > max {
        max
    } else {
        page_size
    };
    (clamp_mvp_list_page(page, line_count, size), size)
}

/// Every line fits on the pages counted, and the last page is never empty when there are lines.
pub proof fn lemma_page_count_covers(total_count: nat, page_size: nat)
    requires
        page_size > 0,
    ensures
        page_count_spec(total_count, page_size) >= 1,
        page_count_spec(total_count, page_size) * page_size >= total_count,
        total_count > 0 ==> (page_count_spec(total_count, page_size) - 1) * page_size
            < total_count,
{
    let q = total_count / page_size;
    let r = total_count % page_size;
    assert(total_count == q * page_size + r && 0 <= r < page_size) by (nonlinear_arith)
        requires
            page_size > 0,
            q == total_count / page_size,
            r == total_count % page_size,
    ;
    let count = page_count_spec(total_count, page_size);
    assert(count == (if r == 0 { if q == 0 { 1 } else { q } } else { q + 1 }));
    if r == 0 {
        if q == 0 {
            assert(total_count == 0) by (nonlinear_arith)
                requires
                    total_count == q * page_size + r,
                    q == 0,
                    r == 0,
            ;
        } else {
            assert(q * page_size == total_count);
            assert((q - 1) * page_size < total_count) by (nonlinear_arith)
                requires
                    total_count == q * page_size,
                    page_size > 0,
                    q > 0,
            ;
        }
    } else {
        assert((q + 1) * page_size >= total_count) by (nonlinear_arith)
            requires
                total_count == q * page_size + r,
                r < page_size,
        ;
        assert(q * page_size < total_count);
    }
}

/// Button styles of the panel.
#[derive(Debug, Clone, Copy, PartialEq, Eq, Structural)]
pub enum PageButtonStyle {
    Primary,
    Secondary,
}

/// A navigation button of the MVP list panel.
pub struct PageButton {
    pub custom_id: String,
    pub label: String,
    pub style: PageButtonStyle,
    pub disabled: bool,
}

/// The spec of one button: action, target page, label key, style and whether it is disabled.
pub open spec fn button_is(
    b: PageButton,
    locale: BotLocale,
    action: Seq<char>,
    target: usize,
    page_size: usize,
    label: I18nKey,
    style: PageButtonStyle,
    disabled: bool,
) -> bool {
    &&& b.custom_id@ == component_id_spec(action, target, page_size)
    &&& b.label@ == translate_spec(locale, label)
    &&& b.style == style
    &&& b.disabled == disabled
}

fn make_button(
    locale: BotLocale,
    action: &str,
    target: usize,
    page_size: usize,
    label: I18nKey,
    style: PageButtonStyle,
    disabled: bool,
) -> (r: PageButton)
    ensures
        button_is(r, locale, action@, target, page_size, label, style, disabled),
{
    PageButton {
        custom_id: mvp_list_component_id(action, target, page_size),
        label: translate(locale, label),
        style,
        disabled,
    }
}

/// The navigation row of the panel: none when everything fits on one page, else the
/// first, previous, next and last buttons around the (clamped) current page.
pub fn mvp_list_components(locale: BotLocale, page: usize, page_size: usize, total_count: usize) -> (r:
    Vec<PageButton>)
    ensures
        ({
            let size = if page_size == 0 { 1 } else { page_size };
            let count = page_count_spec(total_count as nat, size as nat);
            let current = if page < count { page as int } else { count - 1 };
            let last = count - 1;
            if count <= 1 {
                r@.len() == 0
            } else {
                &&& r@.len() == 4
                &&& button_is(
                    r@[0],
                    locale,
                    "first"@,
                    0,
                    size,
                    I18nKey::ButtonFirst,
                    PageButtonStyle::Secondary,
                    current == 0,
                )
                &&& button_is(
                    r@[1],
                    locale,
                    "previous"@,
                    (if current == 0 { 0 } else { current - 1 }) as usize,
                    size,
                    I18nKey::ButtonPrevious,
                    PageButtonStyle::Primary,
                    current == 0,
                )
                &&& button_is(
                    r@[2],
                    locale,
                    "next"@,
                    (if current + 1 < last { current + 1 } else { last }) as usize,
                    size,
                    I18nKey::ButtonNext,
                    PageButtonStyle::Primary,
                    current >= last,
                )
                &&& button_is(
                    r@[3],
                    locale,
                    "last"@,
                    last as usize,
                    size,
                    I18nKey::ButtonLast,
                    PageButtonStyle::Secondary,
                    current >= last,
                )
            }
        }),
{
    let size = if page_size == 0 { 1 } else { page_size };
    let count = mvp_list_page_count(total_count, size);
    if count <= 1 {
        return Vec::new();
    }
    let current = clamp_mvp_list_page(page, total_count, size);
    let last = count - 1;
    let previous = if current == 0 { 0 } else { current - 1 };
    let next = if current + 1 < last { current + 1 } else { last };
    let mut row = Vec::new();
    row.push(make_button(locale, "first", 0, size, I18nKey::ButtonFirst, PageButtonStyle::Secondary, current == 0));
    row.push(make_button(locale, "previous", previous, size, I18nKey::ButtonPrevious, PageButtonStyle::Primary, current == 0));
    row.push(make_button(locale, "next", next, size, I18nKey::ButtonNext, PageButtonStyle::Primary, current >= last));
    row.push(make_button(locale, "last", last, size, I18nKey::ButtonLast, PageButtonStyle::Secondary, current >= last));
    row
}

} // verus!
