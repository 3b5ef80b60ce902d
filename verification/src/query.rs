//! Validation of the query of a note listing and the making of the
//! request sent to the notes backend.

use vstd::prelude::*;
use vstd::string::*;
use crate::decimal::{decimal, describe_int_error, error_text, format_i64, parse_i32, parse_i64, spec_parse_i32, spec_parse_i64, IntErrorKind};
use crate::error::ResError;
use crate::text::{chars_of, ranges_split, split, split_ranges, str_eq, text_of};

verus! {

/// The raw query of a note listing, every field as the client wrote it.
#[derive(Debug, Default)]
pub struct NoteQuery {
    pub page: Option<String>,
    pub per_page: Option<String>,
    pub sort_by: Option<String>,
    pub sort_type: Option<String>,
    pub tags: Option<String>,
    pub date: Option<String>,
    pub date_modif: Option<String>,
    pub title: Option<String>,
}

/// Field by which notes are sorted.
#[derive(Clone, Copy, Debug, PartialEq, Eq, Structural)]
pub enum SortField {
    Date,
    DateModif,
    Title,
}

/// Direction in which notes are sorted.
#[derive(Clone, Copy, Debug, PartialEq, Eq, Structural)]
pub enum SortType {
    Asc,
    Desc,
}

#[derive(Clone, Copy, Debug, PartialEq, Eq, Structural)]
pub struct Pagination {
    pub page: i32,
    pub per_page: i32,
}

#[derive(Clone, Copy, Debug, PartialEq, Eq, Structural)]
pub struct Sort {
    pub sort_type: SortType,
    pub sort_field: SortField,
}

/// Inclusive range of unix times.
#[derive(Clone, Copy, Debug, PartialEq, Eq, Structural)]
pub struct DateRange {
    pub start: i64,
    pub end: i64,
}

#[derive(Debug)]
pub struct Filters {
    pub filter_tags: Option<Vec<i32>>,
    pub filter_date: Option<DateRange>,
    pub filter_date_modif: Option<DateRange>,
    pub filter_search: Option<String>,
}

/// A validated note listing request.
#[derive(Debug)]
pub struct ReadNotesReq {
    pub user_id: i32,
    pub pagination: Pagination,
    pub sort: Sort,
    pub filters: Filters,
}

/// Mathematical content of a [`ReadNotesReq`].
pub struct ReadNotesReqView {
    pub user_id: i32,
    pub pagination: Pagination,
    pub sort: Sort,
    pub tags: Option<Seq<i32>>,
    pub date: Option<DateRange>,
    pub date_modif: Option<DateRange>,
    pub search: Option<Seq<char>>,
}

impl View for ReadNotesReq {
    type V = ReadNotesReqView;

    open spec fn view(&self) -> ReadNotesReqView {
        ReadNotesReqView {
            user_id: self.user_id,
            pagination: self.pagination,
            sort: self.sort,
            tags: match self.filters.filter_tags {
                Some(ids) => Some(ids@),
                None => None,
            },
            date: self.filters.filter_date,
            date_modif: self.filters.filter_date_modif,
            search: text_of(self.filters.filter_search),
        }
    }
}

/// Largest number of tag ids that one query may name.
pub const MAX_TAG_FILTERS: usize = 100;

/// Largest page size that a query may ask for.
pub const MAX_PER_PAGE: i32 = 100;

/// Page size of a query that names none.
pub const DEFAULT_PER_PAGE: i32 = 20;

/// Upper end of a date range whose upper boundary is to be ignored.
pub const OPEN_RANGE_END: i64 = 0x7fff_ffff_ffff_fffe;

/// Detail message of a rejected query field.
pub open spec fn invalid_query_text(object: Seq<char>) -> Seq<char> {
    "Received invalid query field: "@ + object
}

/// The page number: 1 by default, else a positive number. The error names
/// the rejected number or says why the text is no number.
pub open spec fn page_field(field: Option<Seq<char>>) -> Result<i32, Seq<char>> {
    match field {
        None => Ok(1i32),
        Some(s) => match spec_parse_i32(s) {
            Ok(v) => if v > 0 {
                Ok(v)
            } else {
                Err(decimal(v as int))
            },
            Err(e) => Err(error_text(e)),
        },
    }
}

/// The page size: 20 by default, else a number from 1 to 100.
pub open spec fn per_page_field(field: Option<Seq<char>>) -> Result<i32, Seq<char>> {
    match field {
        None => Ok(DEFAULT_PER_PAGE),
        Some(s) => match spec_parse_i32(s) {
            Ok(v) => if 0 < v <= MAX_PER_PAGE {
                Ok(v)
            } else {
                Err(decimal(v as int))
            },
            Err(e) => Err(error_text(e)),
        },
    }
}

/// The sort field: the date by default, else one of the three known names.
pub open spec fn sort_by_field(field: Option<Seq<char>>) -> Result<SortField, Seq<char>> {
    match field {
        None => Ok(SortField::Date),
        Some(s) => if s == "date"@ {
            Ok(SortField::Date)
        } else if s == "date_modif"@ {
            Ok(SortField::DateModif)
        } else if s == "title"@ {
            Ok(SortField::Title)
        } else {
            Err(s)
        },
    }
}

/// The sort direction: descending by default, else `asc` or `desc`.
pub open spec fn sort_type_field(field: Option<Seq<char>>) -> Result<SortType, Seq<char>> {
    match field {
        None => Ok(SortType::Desc),
        Some(s) => if s == "asc"@ {
            Ok(SortType::Asc)
        } else if s == "desc"@ {
            Ok(SortType::Desc)
        } else {
            Err(s)
        },
    }
}

/// The number that a piece of a list stands for: its value as an `i32`, or
/// -1 where it is none.
pub open spec fn tag_value(piece: Seq<char>) -> i32 {
    match spec_parse_i32(piece) {
        Ok(v) => v,
        Err(_) => -1i32,
    }
}

/// The numbers of the non-empty pieces, in order.
pub open spec fn tag_values(pieces: Seq<Seq<char>>) -> Seq<i32>
    decreases pieces.len(),
{
    if pieces.len() == 0 {
        Seq::<i32>::empty()
    } else if pieces.last().len() == 0 {
        tag_values(pieces.drop_last())
    } else {
        tag_values(pieces.drop_last()).push(tag_value(pieces.last()))
    }
}

/// Whether a list of tag ids may be used as a filter: at most 100 ids, each
/// at least 1.
pub open spec fn tags_valid(ids: Seq<i32>) -> bool {
    &&& ids.len() <= MAX_TAG_FILTERS
    &&& forall|j: int| 0 <= j < ids.len() ==> ids[j] >= 1
}

/// The tag filter: a comma-separated list of ids, empty pieces ignored.
pub open spec fn tags_field(field: Option<Seq<char>>) -> Result<Option<Seq<i32>>, Seq<char>> {
    match field {
        None => Ok(None),
        Some(s) => {
            let ids = tag_values(split(s, ','));
            if tags_valid(ids) {
                Ok(Some(ids))
            } else {
                Err(s)
            }
        },
    }
}

/// The number that one end of a date range stands for: its value as an
/// `i64`, or -1 where it is none.
pub open spec fn date_value(piece: Seq<char>) -> i64 {
    match spec_parse_i64(piece) {
        Ok(v) => v,
        Err(_) => -1i64,
    }
}

/// A date filter: two non-negative unix times joined by `-`. A start of 0
/// leaves the range open below; an end of 0 leaves it open above.
pub open spec fn date_field(field: Option<Seq<char>>) -> Result<Option<DateRange>, Seq<char>> {
    match field {
        None => Ok(None),
        Some(s) => {
            let pieces = split(s, '-');
            if pieces.len() == 2 && date_value(pieces[0]) >= 0 && date_value(pieces[1]) >= 0 {
                Ok(
                    Some(
                        DateRange {
                            start: date_value(pieces[0]),
                            end: if date_value(pieces[1]) != 0 {
                                date_value(pieces[1])
                            } else {
                                OPEN_RANGE_END
                            },
                        },
                    ),
                )
            } else {
                Err(s)
            }
        },
    }
}

/// What a query means: the request it stands for, or the offending object
/// of the first field that is rejected, the fields taken in the order page,
/// page size, sort field, sort direction, tags, date, date of modification.
pub open spec fn spec_parse_note_query(user_id: i32, q: NoteQuery) -> Result<
    ReadNotesReqView,
    Seq<char>,
> {
    let page = page_field(text_of(q.page));
    let per_page = per_page_field(text_of(q.per_page));
    let sort_by = sort_by_field(text_of(q.sort_by));
    let sort_type = sort_type_field(text_of(q.sort_type));
    let tags = tags_field(text_of(q.tags));
    let date = date_field(text_of(q.date));
    let date_modif = date_field(text_of(q.date_modif));
    if page is Err {
        Err(page->Err_0)
    } else if per_page is Err {
        Err(per_page->Err_0)
    } else if sort_by is Err {
        Err(sort_by->Err_0)
    } else if sort_type is Err {
        Err(sort_type->Err_0)
    } else if tags is Err {
        Err(tags->Err_0)
    } else if date is Err {
        Err(date->Err_0)
    } else if date_modif is Err {
        Err(date_modif->Err_0)
    } else {
        Ok(
            ReadNotesReqView {
                user_id,
                pagination: Pagination { page: page->Ok_0, per_page: per_page->Ok_0 },
                sort: Sort { sort_type: sort_type->Ok_0, sort_field: sort_by->Ok_0 },
                tags: tags->Ok_0,
                date: date->Ok_0,
                date_modif: date_modif->Ok_0,
                search: text_of(q.title),
            },
        )
    }
}

/// The error of a rejected query field; `object` is what was rejected.
pub fn field_err(object: &str) -> (err: ResError)
    ensures
        err is InvalidFields,
        err.detail() == invalid_query_text(object@),
{
    let mut text = String::from_str("Received invalid query field: ");
    text.append(object);
    ResError::InvalidFields(text)
}

/// Reads a field that holds one number from `low` to `high`; `default`
/// stands for an absent field.
fn parse_bounded_field(field: &Option<String>, default: i32, low: i32, high: i32) -> (res: Result<
    i32,
    ResError,
>)
    ensures
        match res {
            Ok(v) => match text_of(*field) {
                None => v == default,
                Some(s) => spec_parse_i32(s) == Ok::<i32, IntErrorKind>(v) && low <= v <= high,
            },
            Err(e) => {
                &&& e is InvalidFields
                &&& text_of(*field) is Some
                &&& match spec_parse_i32(text_of(*field)->Some_0) {
                    Ok(v) => !(low <= v <= high) && e.detail() == invalid_query_text(decimal(v as int)),
                    Err(k) => e.detail() == invalid_query_text(error_text(k)),
                }
            },
        },
{
    match field {
        None => Ok(default),
        Some(s) => {
            let chars = chars_of(s.as_str());
            assert(chars@.subrange(0, chars.len() as int) =~= chars@);
            match parse_i32(&chars, 0, chars.len()) {
                Ok(v) => {
                    if low <= v && v <= high {
                        Ok(v)
                    } else {
                        let shown = format_i64(v as i64);
                        Err(field_err(shown.as_str()))
                    }
                },
                Err(k) => Err(field_err(describe_int_error(k))),
            }
        },
    }
}

/// Reads the sort field.
fn parse_sort_by(field: &Option<String>) -> (res: Result<SortField, ResError>)
    ensures
        match res {
            Ok(v) => sort_by_field(text_of(*field)) == Ok::<SortField, Seq<char>>(v),
            Err(e) => {
                &&& e is InvalidFields
                &&& sort_by_field(text_of(*field)) is Err
                &&& e.detail() == invalid_query_text(sort_by_field(text_of(*field))->Err_0)
            },
        },
{
    match field {
        None => Ok(SortField::Date),
        Some(s) => {
            if str_eq(s.as_str(), "date") {
                Ok(SortField::Date)
            } else if str_eq(s.as_str(), "date_modif") {
                Ok(SortField::DateModif)
            } else if str_eq(s.as_str(), "title") {
                Ok(SortField::Title)
            } else {
                Err(field_err(s.as_str()))
            }
        },
    }
}

/// Reads the sort direction.
fn parse_sort_type(field: &Option<String>) -> (res: Result<SortType, ResError>)
    ensures
        match res {
            Ok(v) => sort_type_field(text_of(*field)) == Ok::<SortType, Seq<char>>(v),
            Err(e) => {
                &&& e is InvalidFields
                &&& sort_type_field(text_of(*field)) is Err
                &&& e.detail() == invalid_query_text(sort_type_field(text_of(*field))->Err_0)
            },
        },
{
    match field {
        None => Ok(SortType::Desc),
        Some(s) => {
            if str_eq(s.as_str(), "asc") {
                Ok(SortType::Asc)
            } else if str_eq(s.as_str(), "desc") {
                Ok(SortType::Desc)
            } else {
                Err(field_err(s.as_str()))
            }
        },
    }
}

/// Reads the tag filter.
fn parse_tags(field: &Option<String>) -> (res: Result<Option<Vec<i32>>, ResError>)
    ensures
        match res {
            Ok(None) => tags_field(text_of(*field)) == Ok::<Option<Seq<i32>>, Seq<char>>(None),
            Ok(Some(ids)) => tags_field(text_of(*field)) == Ok::<Option<Seq<i32>>, Seq<char>>(
                Some(ids@),
            ),
            Err(e) => {
                &&& e is InvalidFields
                &&& tags_field(text_of(*field)) is Err
                &&& e.detail() == invalid_query_text(tags_field(text_of(*field))->Err_0)
            },
        },
{
    match field {
        None => Ok(None),
        Some(s) => {
            let chars = chars_of(s.as_str());
            let ranges = split_ranges(&chars, ',');
            let ghost pieces = split(chars@, ',');
            let mut ids: Vec<i32> = Vec::new();
            let mut all_valid = true;
            let mut k: usize = 0;
            assert(pieces.subrange(0, 0) =~= Seq::<Seq<char>>::empty());
            while k < ranges.len()
                invariant
                    k <= ranges.len(),
                    pieces == split(chars@, ','),
                    ranges_split(ranges@, chars@, ','),
                    ids@ == tag_values(pieces.subrange(0, k as int)),
                    all_valid == (forall|j: int| 0 <= j < ids@.len() ==> ids@[j] >= 1),
                decreases ranges.len() - k,
            {
                let from = ranges[k].0;
                let to = ranges[k].1;
                assert(pieces.subrange(0, k + 1).drop_last() =~= pieces.subrange(0, k as int));
                assert(pieces.subrange(0, k + 1).last() == chars@.subrange(from as int, to as int));
                if from < to {
                    let value: i32 = match parse_i32(&chars, from, to) {
                        Ok(v) => v,
                        Err(_) => -1,
                    };
                    let ghost before = ids@;
                    ids.push(value);
                    if value < 1 {
                        all_valid = false;
                        assert(ids@[ids@.len() - 1] < 1);
                    } else {
                        assert(forall|j: int| 0 <= j < before.len() ==> ids@[j] == before[j]);
                    }
                }
                k = k + 1;
            }
            assert(pieces.subrange(0, k as int) =~= pieces);
            if all_valid && ids.len() <= MAX_TAG_FILTERS {
                Ok(Some(ids))
            } else {
                Err(field_err(s.as_str()))
            }
        },
    }
}

/// Reads a date filter.
fn parse_date(field: &Option<String>) -> (res: Result<Option<DateRange>, ResError>)
    ensures
        match res {
            Ok(v) => date_field(text_of(*field)) == Ok::<Option<DateRange>, Seq<char>>(v),
            Err(e) => {
                &&& e is InvalidFields
                &&& date_field(text_of(*field)) is Err
                &&& e.detail() == invalid_query_text(date_field(text_of(*field))->Err_0)
            },
        },
{
    match field {
        None => Ok(None),
        Some(s) => {
            let chars = chars_of(s.as_str());
            let ranges = split_ranges(&chars, '-');
            if ranges.len() != 2 {
                return Err(field_err(s.as_str()));
            }
            let start: i64 = match parse_i64(&chars, ranges[0].0, ranges[0].1) {
                Ok(v) => v,
                Err(_) => -1,
            };
            let end: i64 = match parse_i64(&chars, ranges[1].0, ranges[1].1) {
                Ok(v) => v,
                Err(_) => -1,
            };
            if start >= 0 && end >= 0 {
                Ok(Some(DateRange { start, end: if end != 0 { end } else { OPEN_RANGE_END } }))
            } else {
                Err(field_err(s.as_str()))
            }
        },
    }
}

/// Checks the fields of a note listing query and builds the request for the
/// notes backend, with the authenticated user as its owner. The first field
/// that is not acceptable is reported as `InvalidFields`.
pub fn parse_note_query(user_id: i32, q: NoteQuery) -> (res: Result<ReadNotesReq, ResError>)
    ensures
        match res {
            Ok(req) => spec_parse_note_query(user_id, q) == Ok::<ReadNotesReqView, Seq<char>>(req@),
            Err(e) => {
                &&& e is InvalidFields
                &&& spec_parse_note_query(user_id, q) is Err
                &&& e.detail() == invalid_query_text(spec_parse_note_query(user_id, q)->Err_0)
            },
        },
{
    let page = match parse_bounded_field(&q.page, 1, 1, i32::MAX) {
        Ok(v) => v,
        Err(e) => {
            return Err(e);
        },
    };
    let per_page = match parse_bounded_field(&q.per_page, DEFAULT_PER_PAGE, 1, MAX_PER_PAGE) {
        Ok(v) => v,
        Err(e) => {
            return Err(e);
        },
    };
    let sort_field = match parse_sort_by(&q.sort_by) {
        Ok(v) => v,
        Err(e) => {
            return Err(e);
        },
    };
    let sort_type = match parse_sort_type(&q.sort_type) {
        Ok(v) => v,
        Err(e) => {
            return Err(e);
        },
    };
    let filter_tags = match parse_tags(&q.tags) {
        Ok(v) => v,
        Err(e) => {
            return Err(e);
        },
    };
    let filter_date = match parse_date(&q.date) {
        Ok(v) => v,
        Err(e) => {
            return Err(e);
        },
    };
    let filter_date_modif = match parse_date(&q.date_modif) {
        Ok(v) => v,
        Err(e) => {
            return Err(e);
        },
    };
    let filter_search = q.title;
    Ok(
        ReadNotesReq {
            user_id,
            pagination: Pagination { page, per_page },
            sort: Sort { sort_type, sort_field },
            filters: Filters { filter_tags, filter_date, filter_date_modif, filter_search },
        },
    )
}

} // verus!
