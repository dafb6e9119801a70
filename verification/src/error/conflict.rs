//! The storage engine reports two overlapping windows as one line of text.
//! This module reads that line back into the two windows.

use crate::bindings::{captures_iter, parse_from_str, parsed_instant, regex_captures};
use crate::text::{comma_split, split_at_comma, unquoted, without_quotes};
use crate::types::Timestamp;
use core::convert::Infallible;
use vstd::prelude::*;
use vstd::std_specs::cmp::PartialEqSpecImpl;

verus! {

/// One clause of a conflict report, `(key, key)=(value, [range)`: the two
/// keys, the first value, and the range up to its closing bracket.
pub const CLAUSE_PATTERN: &'static str =
    r#"\((?P<k1>[a-zA-Z0-9_-]+)\s*,\s*(?P<k2>[a-zA-Z0-9_-]+)\)=\((?P<v1>[a-zA-Z0-9_-]+)\s*,\s*\[(?P<v2>[^\)\]]+)"#;

/// How a bound of a range is written: `YYYY-MM-DD HH:MM:SS±HH`.
pub const TIMESTAMP_FORMAT: &'static str = "%Y-%m-%d %H:%M:%S%#z";

/// The key under which a clause names the resource.
pub const RESOURCE_KEY: &'static str = "resource_id";

/// The key under which a clause gives the window.
pub const TIMESPAN_KEY: &'static str = "timespan";

/// The key → value pairs of one clause of a conflict report. A key occurs
/// once: a pair put in under a key that is there already takes its place.
#[derive(Clone, Debug)]
pub struct Fields {
    entries: Vec<(String, String)>,
}

impl View for Fields {
    type V = Map<Seq<char>, Seq<char>>;

    closed spec fn view(&self) -> Map<Seq<char>, Seq<char>> {
        Self::map_of(self.entries@)
    }
}

impl Fields {
    /// The map that a list of pairs stands for: a later pair overrides an
    /// earlier one under the same key.
    pub closed spec fn map_of(entries: Seq<(String, String)>) -> Map<Seq<char>, Seq<char>>
        decreases entries.len(),
    {
        if entries.len() == 0 {
            Map::empty()
        } else {
            Self::map_of(entries.drop_last()).insert(entries.last().0@, entries.last().1@)
        }
    }

    /// No pairs.
    pub fn new() -> (fields: Fields)
        ensures
            fields@ == Map::<Seq<char>, Seq<char>>::empty(),
    {
        Fields { entries: Vec::new() }
    }

    /// Puts `value` under `key`, in place of what was there.
    pub fn insert(&mut self, key: String, value: String)
        ensures
            final(self)@ == old(self)@.insert(key@, value@),
    {
        self.entries.push((key, value));
        proof {
            assert(self.entries@.drop_last() == old(self).entries@);
        }
    }

    /// The value under `key`, where there is one.
    pub fn get(&self, key: &str) -> (found: Option<&String>)
        ensures
            match found {
                Some(value) => self@.contains_key(key@) && self@[key@] == value@,
                None => !self@.contains_key(key@),
            },
    {
        let wanted = key.to_owned();
        let mut i = self.entries.len();
        proof {
            assert(self.entries@.take(i as int) == self.entries@);
        }
        while i > 0
            invariant
                i <= self.entries.len(),
                wanted@ == key@,
                self@.contains_key(key@) <==> Self::map_of(self.entries@.take(i as int)).contains_key(key@),
                self@.contains_key(key@) ==> self@[key@] == Self::map_of(self.entries@.take(i as int))[key@],
            decreases i,
        {
            i = i - 1;
            proof {
                assert(self.entries@.take(i + 1).drop_last() == self.entries@.take(i as int));
            }
            if self.entries[i].0 == wanted {
                return Some(&self.entries[i].1);
            }
        }
        None
    }
}

/// One side of a conflict: the resource and the window it was wanted for.
#[derive(Clone, Debug)]
pub struct ReservationWindow {
    pub rid: String,
    pub start: Timestamp,
    pub end: Timestamp,
}

/// What a `ReservationWindow` stands for.
pub struct WindowView {
    pub rid: Seq<char>,
    pub start: Timestamp,
    pub end: Timestamp,
}

impl View for ReservationWindow {
    type V = WindowView;

    open spec fn view(&self) -> WindowView {
        WindowView { rid: self.rid@, start: self.start, end: self.end }
    }
}

/// The window that was asked for and the window that stood in its way.
#[derive(Clone, Debug)]
pub struct ReservationConflict {
    pub new: ReservationWindow,
    pub old: ReservationWindow,
}

/// What a `ReservationConflict` stands for.
pub struct ConflictView {
    pub new: WindowView,
    pub old: WindowView,
}

impl View for ReservationConflict {
    type V = ConflictView;

    open spec fn view(&self) -> ConflictView {
        ConflictView { new: self.new@, old: self.old@ }
    }
}

/// A conflict report: read into its two windows, or kept as it came.
#[derive(Clone, Debug)]
pub enum ReservationConflictInfo {
    Parsed(ReservationConflict),
    Unparsed(String),
}

/// What a `ReservationConflictInfo` stands for.
pub enum ConflictInfoView {
    Parsed(ConflictView),
    Unparsed(Seq<char>),
}

impl View for ReservationConflictInfo {
    type V = ConflictInfoView;

    open spec fn view(&self) -> ConflictInfoView {
        match self {
            ReservationConflictInfo::Parsed(conflict) => ConflictInfoView::Parsed(conflict@),
            ReservationConflictInfo::Unparsed(text) => ConflictInfoView::Unparsed(text@),
        }
    }
}

/// The two clauses of a conflict report, each as its key → value pairs.
#[derive(Clone, Debug)]
pub struct ParsedInfo {
    pub new: Fields,
    pub old: Fields,
}

/// What a `ParsedInfo` stands for.
pub struct ParsedInfoView {
    pub new: Map<Seq<char>, Seq<char>>,
    pub old: Map<Seq<char>, Seq<char>>,
}

impl View for ParsedInfo {
    type V = ParsedInfoView;

    open spec fn view(&self) -> ParsedInfoView {
        ParsedInfoView { new: self.new@, old: self.old@ }
    }
}

/// The pairs of one match of the clause pattern: the first key names the
/// first value, the second key the range. `None` where a group is missing.
pub open spec fn clause_fields(groups: Seq<Option<Seq<char>>>) -> Option<
    Map<Seq<char>, Seq<char>>,
> {
    if groups.len() > 4 && groups[1] is Some && groups[2] is Some && groups[3] is Some
        && groups[4] is Some {
        Some(
            Map::<Seq<char>, Seq<char>>::empty().insert(groups[1]->0, groups[3]->0).insert(
                groups[2]->0,
                groups[4]->0,
            ),
        )
    } else {
        None
    }
}

/// The two clauses of a report, given every match of the clause pattern in
/// it: there must be exactly two, the new window's first.
pub open spec fn info_of_captures(found: Seq<Seq<Option<Seq<char>>>>) -> Option<ParsedInfoView> {
    if found.len() == 2 {
        match (clause_fields(found[0]), clause_fields(found[1])) {
            (Some(new), Some(old)) => Some(ParsedInfoView { new, old }),
            _ => None,
        }
    } else {
        None
    }
}

/// The two clauses of the report `text`.
pub open spec fn parsed_info(text: Seq<char>) -> Option<ParsedInfoView> {
    match regex_captures(CLAUSE_PATTERN@, text) {
        Some(found) => info_of_captures(found),
        None => None,
    }
}

/// The two bounds of a range literal, as they are written: the quotes are
/// left out, and the first comma parts the lower bound from the upper.
pub open spec fn bounds_of(literal: Seq<char>) -> Option<(Seq<char>, Seq<char>)> {
    comma_split(unquoted(literal))
}

/// The window of a resource, given what reading its two bounds gave.
pub open spec fn window_of_parts(
    rid: Seq<char>,
    start: Option<Timestamp>,
    end: Option<Timestamp>,
) -> Option<WindowView> {
    match (start, end) {
        (Some(start), Some(end)) => Some(WindowView { rid, start, end }),
        _ => None,
    }
}

/// The window that the pairs of one clause describe.
pub open spec fn window_of(fields: Map<Seq<char>, Seq<char>>) -> Option<WindowView> {
    if fields.contains_key(TIMESPAN_KEY@) && fields.contains_key(RESOURCE_KEY@) {
        match bounds_of(fields[TIMESPAN_KEY@]) {
            Some((lower, upper)) => window_of_parts(
                fields[RESOURCE_KEY@],
                parsed_instant(lower, TIMESTAMP_FORMAT@),
                parsed_instant(upper, TIMESTAMP_FORMAT@),
            ),
            None => None,
        }
    } else {
        None
    }
}

/// The conflict that two clauses describe.
pub open spec fn conflict_of_info(info: ParsedInfoView) -> Option<ConflictView> {
    match (window_of(info.new), window_of(info.old)) {
        (Some(new), Some(old)) => Some(ConflictView { new, old }),
        _ => None,
    }
}

/// The conflict that the report `text` describes.
pub open spec fn conflict_of(text: Seq<char>) -> Option<ConflictView> {
    match parsed_info(text) {
        Some(info) => conflict_of_info(info),
        None => None,
    }
}

/// What the report `text` is read as: its conflict, or the text itself.
pub open spec fn conflict_info(text: Seq<char>) -> ConflictInfoView {
    match conflict_of(text) {
        Some(conflict) => ConflictInfoView::Parsed(conflict),
        None => ConflictInfoView::Unparsed(text),
    }
}

/// Whether `groups` is a match of the clause pattern on a clause that is
/// written as the storage engine writes it and that describes `window`: the
/// keys are `resource_id` and `timespan` in this order, the first value is
/// the resource, and the two bounds of the range read as the window's ends.
pub open spec fn is_clause_of(groups: Seq<Option<Seq<char>>>, window: WindowView) -> bool {
    &&& groups.len() == 5
    &&& groups[1] == Some(RESOURCE_KEY@)
    &&& groups[2] == Some(TIMESPAN_KEY@)
    &&& groups[3] == Some(window.rid)
    &&& groups[4] matches Some(range)
    &&& bounds_of(range) matches Some((lower, upper))
    &&& parsed_instant(lower, TIMESTAMP_FORMAT@) == Some(window.start)
    &&& parsed_instant(upper, TIMESTAMP_FORMAT@) == Some(window.end)
}

/// A clause that is written as the storage engine writes it is read as the
/// window it describes.
pub proof fn law_clause_gives_its_window(groups: Seq<Option<Seq<char>>>, window: WindowView)
    requires
        is_clause_of(groups, window),
    ensures
        clause_fields(groups) matches Some(fields) && window_of(fields) == Some(window),
{
    reveal_strlit("resource_id");
    reveal_strlit("timespan");
    assert(RESOURCE_KEY@ != TIMESPAN_KEY@) by {
        assert(RESOURCE_KEY@.len() != TIMESPAN_KEY@.len());
    }
}

/// A report in which the clause pattern matches exactly twice, each time on
/// a well-formed clause, is read as the conflict of the two windows that
/// the clauses describe: the first clause is the new window, the second
/// the old one.
pub proof fn law_two_clauses_parse(
    text: Seq<char>,
    first: Seq<Option<Seq<char>>>,
    second: Seq<Option<Seq<char>>>,
    new: WindowView,
    old: WindowView,
)
    requires
        regex_captures(CLAUSE_PATTERN@, text) == Some(seq![first, second]),
        is_clause_of(first, new),
        is_clause_of(second, old),
    ensures
        conflict_info(text) == ConflictInfoView::Parsed(ConflictView { new, old }),
{
    law_clause_gives_its_window(first, new);
    law_clause_gives_its_window(second, old);
    let found = seq![first, second];
    assert(found.len() == 2 && found[0] == first && found[1] == second);
}

/// A text in which the clause pattern does not match exactly twice is kept
/// as it is.
pub proof fn law_other_texts_are_kept(text: Seq<char>)
    requires
        !(regex_captures(CLAUSE_PATTERN@, text) matches Some(found) && found.len() == 2),
    ensures
        conflict_info(text) == ConflictInfoView::Unparsed(text),
{
}

/// Whatever the text, reading it gives the text back unless it gives a
/// conflict: nothing else comes out.
pub proof fn law_degrades_to_the_text(text: Seq<char>)
    ensures
        conflict_info(text) is Parsed || conflict_info(text) == ConflictInfoView::Unparsed(text),
{
}

/// Reads one instant written as `TIMESTAMP_FORMAT` says.
pub fn parse_datetime(s: &str) -> (r: Result<Timestamp, ()>)
    ensures
        match r {
            Ok(instant) => parsed_instant(s@, TIMESTAMP_FORMAT@) == Some(instant),
            Err(_) => parsed_instant(s@, TIMESTAMP_FORMAT@) is None,
        },
{
    match parse_from_str(s, TIMESTAMP_FORMAT) {
        Some(instant) => Ok(instant),
        None => Err(()),
    }
}

/// Takes a range literal apart into the texts of its two bounds.
pub fn range_bounds(literal: &str) -> (bounds: Option<(String, String)>)
    ensures
        bounds.deep_view() == bounds_of(literal@),
{
    let bare = without_quotes(literal);
    match split_at_comma(bare.as_str()) {
        Some((lower, upper)) => Some((lower.to_owned(), upper.to_owned())),
        None => None,
    }
}

/// The pairs of one match of the clause pattern.
fn fields_of_clause(groups: &Vec<Option<String>>) -> (fields: Option<Fields>)
    ensures
        match fields {
            Some(fields) => clause_fields(groups.deep_view()) == Some(fields@),
            None => clause_fields(groups.deep_view()) is None,
        },
{
    if groups.len() < 5 {
        return None;
    }
    match (&groups[1], &groups[2], &groups[3], &groups[4]) {
        (Some(k1), Some(k2), Some(v1), Some(v2)) => {
            let mut fields = Fields::new();
            fields.insert(k1.clone(), v1.clone());
            fields.insert(k2.clone(), v2.clone());
            Some(fields)
        },
        _ => None,
    }
}

impl ParsedInfo {
    /// The two clauses, given every match of the clause pattern in a report.
    pub fn from_captures(found: &Vec<Vec<Option<String>>>) -> (r: Result<ParsedInfo, ()>)
        ensures
            match r {
                Ok(info) => info_of_captures(found.deep_view()) == Some(info@),
                Err(_) => info_of_captures(found.deep_view()) is None,
            },
    {
        if found.len() != 2 {
            return Err(());
        }
        match (fields_of_clause(&found[0]), fields_of_clause(&found[1])) {
            (Some(new), Some(old)) => Ok(ParsedInfo { new, old }),
            _ => Err(()),
        }
    }

    /// Finds the two clauses of a conflict report.
    pub fn from_str(s: &str) -> (r: Result<ParsedInfo, ()>)
        ensures
            match r {
                Ok(info) => parsed_info(s@) == Some(info@),
                Err(_) => parsed_info(s@) is None,
            },
    {
        match captures_iter(CLAUSE_PATTERN, s) {
            Some(found) => ParsedInfo::from_captures(&found),
            None => Err(()),
        }
    }
}

impl ReservationWindow {
    /// The window of `rid`, given what reading its two bounds gave.
    pub fn from_parts(rid: &str, start: Option<Timestamp>, end: Option<Timestamp>) -> (r: Result<
        ReservationWindow,
        (),
    >)
        ensures
            match r {
                Ok(window) => window_of_parts(rid@, start, end) == Some(window@),
                Err(_) => window_of_parts(rid@, start, end) is None,
            },
    {
        match (start, end) {
            (Some(start), Some(end)) => Ok(ReservationWindow { rid: rid.to_owned(), start, end }),
            _ => Err(()),
        }
    }

    /// Reads the window out of the pairs of one clause.
    pub fn try_from(value: Fields) -> (r: Result<ReservationWindow, ()>)
        ensures
            match r {
                Ok(window) => window_of(value@) == Some(window@),
                Err(_) => window_of(value@) is None,
            },
    {
        let literal = match value.get(TIMESPAN_KEY) {
            Some(literal) => literal,
            None => { return Err(()); },
        };
        let rid = match value.get(RESOURCE_KEY) {
            Some(rid) => rid,
            None => { return Err(()); },
        };
        match range_bounds(literal.as_str()) {
            Some((lower, upper)) => ReservationWindow::from_parts(
                rid.as_str(),
                parse_from_str(lower.as_str(), TIMESTAMP_FORMAT),
                parse_from_str(upper.as_str(), TIMESTAMP_FORMAT),
            ),
            None => Err(()),
        }
    }
}

impl ReservationConflict {
    /// Reads both windows out of the two clauses of a report.
    pub fn try_from(value: ParsedInfo) -> (r: Result<ReservationConflict, ()>)
        ensures
            match r {
                Ok(conflict) => conflict_of_info(value@) == Some(conflict@),
                Err(_) => conflict_of_info(value@) is None,
            },
    {
        let ParsedInfo { new, old } = value;
        match (ReservationWindow::try_from(new), ReservationWindow::try_from(old)) {
            (Ok(new), Ok(old)) => Ok(ReservationConflict { new, old }),
            _ => Err(()),
        }
    }

    /// Reads a conflict report into its two windows.
    pub fn from_str(s: &str) -> (r: Result<ReservationConflict, ()>)
        ensures
            match r {
                Ok(conflict) => conflict_of(s@) == Some(conflict@),
                Err(_) => conflict_of(s@) is None,
            },
    {
        match ParsedInfo::from_str(s) {
            Ok(info) => ReservationConflict::try_from(info),
            Err(_) => Err(()),
        }
    }
}

impl ReservationConflictInfo {
    /// Reads a conflict report: into its two windows where it can be read,
    /// else the report is kept word for word. This never fails.
    pub fn from_str(s: &str) -> (r: Result<ReservationConflictInfo, Infallible>)
        ensures
            r matches Ok(info) && info@ == conflict_info(s@),
    {
        match ReservationConflict::from_str(s) {
            Ok(conflict) => Ok(ReservationConflictInfo::Parsed(conflict)),
            Err(_) => Ok(ReservationConflictInfo::Unparsed(s.to_owned())),
        }
    }
}

impl PartialEq for ReservationWindow {
    fn eq(&self, other: &Self) -> (r: bool) {
        self.rid == other.rid && self.start == other.start && self.end == other.end
    }
}

impl PartialEqSpecImpl for ReservationWindow {
    open spec fn obeys_eq_spec() -> bool {
        true
    }

    open spec fn eq_spec(&self, other: &Self) -> bool {
        self@ == other@
    }
}

impl Eq for ReservationWindow {

}

impl PartialEq for ReservationConflict {
    fn eq(&self, other: &Self) -> (r: bool) {
        self.new == other.new && self.old == other.old
    }
}

impl PartialEqSpecImpl for ReservationConflict {
    open spec fn obeys_eq_spec() -> bool {
        true
    }

    open spec fn eq_spec(&self, other: &Self) -> bool {
        self@ == other@
    }
}

impl Eq for ReservationConflict {

}

impl PartialEq for ReservationConflictInfo {
    fn eq(&self, other: &Self) -> (r: bool) {
        match (self, other) {
            (ReservationConflictInfo::Parsed(a), ReservationConflictInfo::Parsed(b)) => *a == *b,
            (ReservationConflictInfo::Unparsed(a), ReservationConflictInfo::Unparsed(b)) => *a == *b,
            _ => false,
        }
    }
}

impl PartialEqSpecImpl for ReservationConflictInfo {
    open spec fn obeys_eq_spec() -> bool {
        true
    }

    open spec fn eq_spec(&self, other: &Self) -> bool {
        self@ == other@
    }
}

impl Eq for ReservationConflictInfo {

}

} // verus!
