//! Reading meal posts from the school's cafeteria board and menus from the
//! post pages.
use vstd::prelude::*;

use crate::calendar::{
    date_from_ymd, date_string, date_string_spec, is_valid_ymd, iso_date_text, CalendarDate,
};
use crate::error::ScrapeError;
use crate::html::{
    html_select_attr, html_select_inner_htmls, html_select_text, html_select_texts, select_attr,
    select_inner_htmls, select_text, select_texts,
};
use crate::pattern::{parse_number_spec, parse_string, parse_string_spec, read_number};
use crate::text::{
    chars_eq, chars_of, contains_spec, contains_string, join_spec, join_strings, parse_i32,
    law_split_around_separator, parse_i32_spec, split_spec, split_string, string_views,
    trim_spec, trim_string,
};

verus! {

broadcast use vstd::string::group_string_axioms;

/// Header cells of the post list.
pub const HEADER_SELECTOR: &'static str = "#siLst thead th";

/// Rows of the post list.
pub const ROW_SELECTOR: &'static str = "#siLst tbody tr";

/// Cells of a post row.
pub const CELL_SELECTOR: &'static str = "td";

/// The link to a post in its row.
pub const LINK_SELECTOR: &'static str = ".title a";

/// The attribute holding a link's address.
pub const LINK_ATTRIBUTE: &'static str = "href";

/// The body of a post page.
pub const CONTENT_SELECTOR: &'static str = ".scConDoc";

// ---------------------------------------------------------------------------
// Cleaning lists of texts
// ---------------------------------------------------------------------------

/// Each text cleaned by `parse_string`; `None` when one cannot be.
pub open spec fn clean_all(texts: Seq<Seq<char>>) -> Option<Seq<Seq<char>>>
    decreases texts.len(),
{
    if texts.len() == 0 {
        Some(Seq::empty())
    } else {
        match (clean_all(texts.drop_last()), parse_string_spec(texts.last())) {
            (Some(a), Some(b)) => Some(a.push(b)),
            _ => None,
        }
    }
}

/// Once a prefix cannot be cleaned, neither can the whole list.
pub proof fn lemma_clean_all_prefix(texts: Seq<Seq<char>>, k: int)
    requires
        0 <= k <= texts.len(),
        clean_all(texts.take(k)) is None,
    ensures
        clean_all(texts) is None,
    decreases texts.len() - k,
{
    if k < texts.len() {
        assert(texts.take(k + 1).drop_last() =~= texts.take(k));
        lemma_clean_all_prefix(texts, k + 1);
    } else {
        assert(texts.take(k) =~= texts);
    }
}

/// Cleans every text of a list with `parse_string`.
pub fn clean_all_strings(texts: &Vec<String>) -> (r: Result<Vec<String>, ScrapeError>)
    ensures
        match r {
            Ok(v) => clean_all(string_views(texts@)) == Some(string_views(v@)),
            Err(e) => clean_all(string_views(texts@)) is None && e == ScrapeError::PatternRejected,
        },
{
    let ghost all = string_views(texts@);
    let mut out: Vec<String> = Vec::new();
    for i in 0..texts.len()
        invariant
            all == string_views(texts@),
            clean_all(all.take(i as int)) == Some(string_views(out@)),
    {
        assert(all.take(i as int + 1).drop_last() =~= all.take(i as int));
        assert(all.take(i as int + 1).last() == texts[i as int]@);
        match parse_string(texts[i].as_str()) {
            Ok(t) => {
                let ghost before = out@;
                out.push(t);
                assert(string_views(out@) =~= string_views(before).push(t@));
            },
            Err(e) => {
                proof {
                    lemma_clean_all_prefix(all, i + 1);
                }
                return Err(e);
            },
        }
    }
    assert(all.take(texts.len() as int) =~= all);
    Ok(out)
}

// ---------------------------------------------------------------------------
// The post list
// ---------------------------------------------------------------------------

/// Positions of the number, title and date columns of the post list.
#[derive(Debug, Clone, Copy, PartialEq, Eq, Structural)]
pub struct Columns {
    pub id: usize,
    pub title: usize,
    pub date: usize,
}

/// The columns named by cleaned header cells: the last cell reading 번호,
/// 제목 or 등록일 gives the number, title or date column; a column that no
/// cell names is the first one.
pub open spec fn columns_after(cells: Seq<Seq<char>>) -> Columns
    decreases cells.len(),
{
    if cells.len() == 0 {
        Columns { id: 0, title: 0, date: 0 }
    } else {
        let c = columns_after(cells.drop_last());
        let i = (cells.len() - 1) as usize;
        let k = cells.last();
        if k == "번호"@ {
            Columns { id: i, ..c }
        } else if k == "제목"@ {
            Columns { title: i, ..c }
        } else if k == "등록일"@ {
            Columns { date: i, ..c }
        } else {
            c
        }
    }
}

/// A header cell reading 번호, 제목 or 등록일 makes its own position the
/// number, title or date column, leaving the other two columns as the cells
/// before it named them.
pub proof fn law_named_header_cell(cells: Seq<Seq<char>>)
    requires
        cells.len() < usize::MAX,
    ensures
        columns_after(cells.push("번호"@)) == (Columns {
            id: cells.len() as usize,
            ..columns_after(cells)
        }),
        columns_after(cells.push("제목"@)) == (Columns {
            title: cells.len() as usize,
            ..columns_after(cells)
        }),
        columns_after(cells.push("등록일"@)) == (Columns {
            date: cells.len() as usize,
            ..columns_after(cells)
        }),
{
    reveal_strlit("번호");
    reveal_strlit("제목");
    reveal_strlit("등록일");
    assert(cells.push("번호"@).drop_last() =~= cells);
    assert(cells.push("제목"@).drop_last() =~= cells);
    assert(cells.push("등록일"@).drop_last() =~= cells);
    assert("제목"@ != "번호"@) by {
        assert("제목"@[0] != "번호"@[0]);
    }
    assert("등록일"@ != "번호"@) by {
        assert("등록일"@.len() != "번호"@.len());
    }
    assert("등록일"@ != "제목"@) by {
        assert("등록일"@.len() != "제목"@.len());
    }
}

/// Finds the columns named by cleaned header cells.
pub fn column_indices(cells: &Vec<String>) -> (r: Columns)
    ensures
        r == columns_after(string_views(cells@)),
{
    let ghost all = string_views(cells@);
    let id_name = chars_of("번호");
    let title_name = chars_of("제목");
    let date_name = chars_of("등록일");
    let mut cols = Columns { id: 0, title: 0, date: 0 };
    for i in 0..cells.len()
        invariant
            all == string_views(cells@),
            id_name@ == "번호"@,
            title_name@ == "제목"@,
            date_name@ == "등록일"@,
            cols == columns_after(all.take(i as int)),
    {
        assert(all.take(i as int + 1).drop_last() =~= all.take(i as int));
        assert(all.take(i as int + 1).last() == cells[i as int]@);
        let key = chars_of(cells[i].as_str());
        if chars_eq(&key, &id_name) {
            cols = Columns { id: i, ..cols };
        } else if chars_eq(&key, &title_name) {
            cols = Columns { title: i, ..cols };
        } else if chars_eq(&key, &date_name) {
            cols = Columns { date: i, ..cols };
        }
    }
    assert(all.take(cells.len() as int) =~= all);
    cols
}

/// The columns of the post list page: the header cells' texts, cleaned.
pub open spec fn header_columns_spec(list_html: Seq<char>) -> Result<Columns, ScrapeError> {
    match html_select_texts(list_html, HEADER_SELECTOR@) {
        None => Err(ScrapeError::HtmlRejected),
        Some(texts) => match clean_all(texts) {
            None => Err(ScrapeError::PatternRejected),
            Some(cells) => Ok(columns_after(cells)),
        },
    }
}

/// Reads the column positions from the post list page.
pub fn header_columns(list_html: &str) -> (r: Result<Columns, ScrapeError>)
    ensures
        r == header_columns_spec(list_html@),
{
    match select_texts(list_html, HEADER_SELECTOR) {
        None => Err(ScrapeError::HtmlRejected),
        Some(texts) => match clean_all_strings(&texts) {
            Err(e) => Err(e),
            Ok(cells) => Ok(column_indices(&cells)),
        },
    }
}

/// The inner HTML of each row of the post list page.
pub fn list_rows(list_html: &str) -> (r: Result<Vec<String>, ScrapeError>)
    ensures
        match r {
            Ok(rows) => html_select_inner_htmls(list_html@, ROW_SELECTOR@) == Some(
                string_views(rows@),
            ),
            Err(e) => html_select_inner_htmls(list_html@, ROW_SELECTOR@) is None && e
                == ScrapeError::HtmlRejected,
        },
{
    match select_inner_htmls(list_html, ROW_SELECTOR) {
        Some(rows) => Ok(rows),
        None => Err(ScrapeError::HtmlRejected),
    }
}

// ---------------------------------------------------------------------------
// Post rows
// ---------------------------------------------------------------------------

/// A post of the meal board.
#[derive(Debug, Clone)]
pub struct MealPost {
    /// The post's number.
    pub id: i32,
    /// The cleaned title, such as `3월15일식단`.
    pub title: String,
    /// The cleaned registration date, such as `2024-03-14`.
    pub date_text: String,
    /// The address of the post page.
    pub url: String,
    /// The day of the meals, `YYYY-MM-DD`.
    pub date: String,
}

impl View for MealPost {
    /// Number, title, registration date, address and meal day.
    type V = (i32, Seq<char>, Seq<char>, Seq<char>, Seq<char>);

    open spec fn view(&self) -> Self::V {
        (self.id, self.title@, self.date_text@, self.url@, self.date@)
    }
}

/// One cleaned cell taken into the number, title and date read so far: the
/// number column is read as an `i32`, the title and date columns as text
/// (in that order of precedence when columns coincide).
pub open spec fn take_cell(
    f: (i32, Seq<char>, Seq<char>),
    cell: Seq<char>,
    i: int,
    cols: Columns,
) -> Result<(i32, Seq<char>, Seq<char>), ScrapeError> {
    match parse_string_spec(cell) {
        None => Err(ScrapeError::PatternRejected),
        Some(v) => if i == cols.id {
            match parse_i32_spec(v) {
                Some(x) => Ok((x, f.1, f.2)),
                None => Err(ScrapeError::BadNumber),
            }
        } else if i == cols.title {
            Ok((f.0, v, f.2))
        } else if i == cols.date {
            Ok((f.0, f.1, v))
        } else {
            Ok(f)
        },
    }
}

/// Number, title and date read from the cells of a row, left to right,
/// starting from number 0 and empty texts.
pub open spec fn row_fields(cells: Seq<Seq<char>>, cols: Columns) -> Result<
    (i32, Seq<char>, Seq<char>),
    ScrapeError,
>
    decreases cells.len(),
{
    if cells.len() == 0 {
        Ok((0i32, Seq::empty(), Seq::empty()))
    } else {
        match row_fields(cells.drop_last(), cols) {
            Err(e) => Err(e),
            Ok(f) => take_cell(f, cells.last(), cells.len() - 1, cols),
        }
    }
}

/// An error in a prefix of the cells is the error of the whole row.
pub proof fn lemma_row_fields_prefix(cells: Seq<Seq<char>>, cols: Columns, k: int)
    requires
        0 <= k <= cells.len(),
        row_fields(cells.take(k), cols) is Err,
    ensures
        row_fields(cells, cols) == row_fields(cells.take(k), cols),
    decreases cells.len() - k,
{
    if k < cells.len() {
        assert(cells.take(k + 1).drop_last() =~= cells.take(k));
        lemma_row_fields_prefix(cells, cols, k + 1);
    } else {
        assert(cells.take(k) =~= cells);
    }
}

/// The post that number, title and registration date describe: `None` when
/// the title has no `월` or the date has fewer than three `-`-separated
/// parts; else the meal day is the year of the date's first part with the
/// month before `월` and the day after it.
pub open spec fn post_from_fields(
    id: i32,
    title: Seq<char>,
    date_text: Seq<char>,
    url: Seq<char>,
) -> Result<Option<(i32, Seq<char>, Seq<char>, Seq<char>, Seq<char>)>, ScrapeError> {
    let tl = split_spec(title, "월"@);
    let dl = split_spec(date_text, "-"@);
    if tl.len() < 2 {
        Ok(None)
    } else if dl.len() < 3 {
        Ok(None)
    } else {
        match parse_number_spec(dl[0]) {
            Err(e) => Err(e),
            Ok(year) => match parse_number_spec(tl[0]) {
                Err(e) => Err(e),
                Ok(month) => match parse_number_spec(tl[1]) {
                    Err(e) => Err(e),
                    Ok(day) => match date_string_spec(year, month, day) {
                        None => Err(ScrapeError::BadDate),
                        Some(date) => Ok(Some((id, title, date_text, url, date))),
                    },
                },
            },
        }
    }
}

/// The meal day of a post comes from its title and registration date: for
/// a title `M월D` (neither part holding `월`) whose parts read as the numbers
/// `month` and `day`, and a registration date whose first `-`-separated part
/// reads as `year`, the post's day is the `%Y-%m-%d` text of `year`,
/// `month` and `day` in that order, whatever their values; when they name no
/// date, the row is a bad date.
pub proof fn law_post_day_from_title(
    id: i32,
    before: Seq<char>,
    after: Seq<char>,
    date_text: Seq<char>,
    url: Seq<char>,
    year: i32,
    month: i32,
    day: i32,
)
    requires
        !before.contains('월'),
        !after.contains('월'),
        split_spec(date_text, "-"@).len() >= 3,
        parse_number_spec(split_spec(date_text, "-"@)[0]) == Ok::<i32, ScrapeError>(year),
        parse_number_spec(before) == Ok::<i32, ScrapeError>(month),
        parse_number_spec(after) == Ok::<i32, ScrapeError>(day),
    ensures
        month >= 0 && day >= 0 && is_valid_ymd(year as int, month as int, day as int)
            ==> post_from_fields(id, before + seq!['월'] + after, date_text, url) == Ok::<
            Option<(i32, Seq<char>, Seq<char>, Seq<char>, Seq<char>)>,
            ScrapeError,
        >(
            Some(
                (
                    id,
                    before + seq!['월'] + after,
                    date_text,
                    url,
                    iso_date_text(
                        CalendarDate { year: year, month: month as u32, day: day as u32 },
                    ),
                ),
            ),
        ),
        !(month >= 0 && day >= 0 && is_valid_ymd(year as int, month as int, day as int))
            ==> post_from_fields(id, before + seq!['월'] + after, date_text, url) == Err::<
            Option<(i32, Seq<char>, Seq<char>, Seq<char>, Seq<char>)>,
            ScrapeError,
        >(ScrapeError::BadDate),
{
    reveal_strlit("월");
    assert("월"@ =~= seq!['월']);
    law_split_around_separator(before, '월', after);
}

/// What a row gives, given its raw cell texts and link.
pub open spec fn post_from_cells_spec(cells: Seq<Seq<char>>, url: Seq<char>, cols: Columns) -> Result<
    Option<(i32, Seq<char>, Seq<char>, Seq<char>, Seq<char>)>,
    ScrapeError,
> {
    match row_fields(cells, cols) {
        Err(e) => Err(e),
        Ok(f) => post_from_fields(f.0, f.1, f.2, url),
    }
}

/// The view of a row's result.
pub open spec fn post_result_view(r: Result<Option<MealPost>, ScrapeError>) -> Result<
    Option<(i32, Seq<char>, Seq<char>, Seq<char>, Seq<char>)>,
    ScrapeError,
> {
    match r {
        Ok(Some(p)) => Ok(Some(p@)),
        Ok(None) => Ok(None),
        Err(e) => Err(e),
    }
}

/// Reads the post of a row from number, title and registration date.
pub fn post_from_fields_exec(id: i32, title: String, date_text: String, url: String) -> (r: Result<
    Option<MealPost>,
    ScrapeError,
>)
    ensures
        post_result_view(r) == post_from_fields(id, title@, date_text@, url@),
{
    let title_list = split_string(title.as_str(), "월");
    if title_list.len() < 2 {
        return Ok(None);
    }
    let date_list = split_string(date_text.as_str(), "-");
    if date_list.len() < 3 {
        return Ok(None);
    }
    assert(string_views(date_list@)[0] == date_list[0]@);
    assert(string_views(title_list@)[0] == title_list[0]@);
    assert(string_views(title_list@)[1] == title_list[1]@);
    let year = match read_number(date_list[0].as_str()) {
        Ok(v) => v,
        Err(e) => return Err(e),
    };
    let month = match read_number(title_list[0].as_str()) {
        Ok(v) => v,
        Err(e) => return Err(e),
    };
    let day = match read_number(title_list[1].as_str()) {
        Ok(v) => v,
        Err(e) => return Err(e),
    };
    if month < 0 || day < 0 {
        return Err(ScrapeError::BadDate);
    }
    match date_from_ymd(year, month as u32, day as u32) {
        None => Err(ScrapeError::BadDate),
        Some(_) => {
            let date = date_string(year, month, day);
            Ok(Some(MealPost { id, title, date_text, url, date }))
        },
    }
}

/// Reads the post of a row from its raw cell texts and its link.
pub fn post_from_cells(cells: &Vec<String>, url: String, cols: Columns) -> (r: Result<
    Option<MealPost>,
    ScrapeError,
>)
    ensures
        post_result_view(r) == post_from_cells_spec(string_views(cells@), url@, cols),
{
    let ghost all = string_views(cells@);
    let mut id: i32 = 0;
    let mut title = String::new();
    let mut date_text = String::new();
    for i in 0..cells.len()
        invariant
            all == string_views(cells@),
            row_fields(all.take(i as int), cols) == Ok::<(i32, Seq<char>, Seq<char>), ScrapeError>(
                (id, title@, date_text@),
            ),
    {
        assert(all.take(i as int + 1).drop_last() =~= all.take(i as int));
        assert(all.take(i as int + 1).last() == cells[i as int]@);
        let value = match parse_string(cells[i].as_str()) {
            Ok(v) => v,
            Err(e) => {
                proof {
                    lemma_row_fields_prefix(all, cols, i + 1);
                }
                return Err(e);
            },
        };
        if i == cols.id {
            match parse_i32(value.as_str()) {
                Some(x) => {
                    id = x;
                },
                None => {
                    proof {
                        lemma_row_fields_prefix(all, cols, i + 1);
                    }
                    return Err(ScrapeError::BadNumber);
                },
            }
        } else if i == cols.title {
            title = value;
        } else if i == cols.date {
            date_text = value;
        }
    }
    assert(all.take(cells.len() as int) =~= all);
    post_from_fields_exec(id, title, date_text, url)
}

/// What a row of the post list gives, given its inner HTML: the link is read
/// first, then the cells.
pub open spec fn post_from_row_spec(row_html: Seq<char>, cols: Columns) -> Result<
    Option<(i32, Seq<char>, Seq<char>, Seq<char>, Seq<char>)>,
    ScrapeError,
> {
    match html_select_attr(row_html, LINK_SELECTOR@, LINK_ATTRIBUTE@) {
        None => Err(ScrapeError::HtmlRejected),
        Some(None) => Err(ScrapeError::MissingLink),
        Some(Some(url)) => match html_select_texts(row_html, CELL_SELECTOR@) {
            None => Err(ScrapeError::HtmlRejected),
            Some(cells) => post_from_cells_spec(cells, url, cols),
        },
    }
}

/// Reads the post of a row of the post list.
pub fn post_from_row(row_html: &str, cols: Columns) -> (r: Result<Option<MealPost>, ScrapeError>)
    ensures
        post_result_view(r) == post_from_row_spec(row_html@, cols),
{
    let url = match select_attr(row_html, LINK_SELECTOR, LINK_ATTRIBUTE) {
        None => return Err(ScrapeError::HtmlRejected),
        Some(None) => return Err(ScrapeError::MissingLink),
        Some(Some(u)) => u,
    };
    match select_texts(row_html, CELL_SELECTOR) {
        None => Err(ScrapeError::HtmlRejected),
        Some(cells) => post_from_cells(&cells, url, cols),
    }
}

// ---------------------------------------------------------------------------
// Post pages
// ---------------------------------------------------------------------------

/// The menus of a day.
#[derive(Debug, Clone)]
pub struct MealMenu {
    pub breakfast: String,
    pub lunch: String,
    pub dinner: String,
}

impl View for MealMenu {
    /// Breakfast, lunch and dinner.
    type V = (Seq<char>, Seq<char>, Seq<char>);

    open spec fn view(&self) -> Self::V {
        (self.breakfast@, self.lunch@, self.dinner@)
    }
}

/// One cleaned line of a post page taken into the menus read so far: a line
/// `key:value` whose key holds 조식, 중식 or 석식 sets breakfast, lunch or
/// dinner (in that order of precedence) to the trimmed value, which keeps any
/// further colons.
pub open spec fn take_menu_line(
    m: (Seq<char>, Seq<char>, Seq<char>),
    line: Seq<char>,
) -> (Seq<char>, Seq<char>, Seq<char>) {
    let parts = split_spec(line, ":"@);
    if parts.len() < 2 {
        m
    } else {
        let key = parts[0];
        let value = trim_spec(join_spec(parts.drop_first(), ":"@));
        if contains_spec(key, "조식"@) {
            (value, m.1, m.2)
        } else if contains_spec(key, "중식"@) {
            (m.0, value, m.2)
        } else if contains_spec(key, "석식"@) {
            (m.0, m.1, value)
        } else {
            m
        }
    }
}

/// A cleaned line `key:value` (no further colon) whose key holds 조식, 중식 or
/// 석식 sets breakfast, lunch or dinner, checked in that order, to the
/// trimmed value and keeps the other two menus; any other key keeps all
/// three.
pub proof fn law_menu_line(
    m: (Seq<char>, Seq<char>, Seq<char>),
    key: Seq<char>,
    value: Seq<char>,
)
    requires
        !key.contains(':'),
        !value.contains(':'),
    ensures
        contains_spec(key, "조식"@) ==> take_menu_line(m, key + seq![':'] + value) == (
            trim_spec(value),
            m.1,
            m.2,
        ),
        !contains_spec(key, "조식"@) && contains_spec(key, "중식"@) ==> take_menu_line(
            m,
            key + seq![':'] + value,
        ) == (m.0, trim_spec(value), m.2),
        !contains_spec(key, "조식"@) && !contains_spec(key, "중식"@) && contains_spec(key, "석식"@)
            ==> take_menu_line(m, key + seq![':'] + value) == (m.0, m.1, trim_spec(value)),
        !contains_spec(key, "조식"@) && !contains_spec(key, "중식"@) && !contains_spec(
            key,
            "석식"@,
        ) ==> take_menu_line(m, key + seq![':'] + value) == m,
{
    reveal_strlit(":");
    assert(":"@ =~= seq![':']);
    law_split_around_separator(key, ':', value);
    assert(seq![key, value].drop_first() =~= seq![value]);
}

/// The menus that cleaned lines give, read top to bottom from empty menus.
pub open spec fn menu_after(lines: Seq<Seq<char>>) -> (Seq<char>, Seq<char>, Seq<char>)
    decreases lines.len(),
{
    if lines.len() == 0 {
        (Seq::empty(), Seq::empty(), Seq::empty())
    } else {
        take_menu_line(menu_after(lines.drop_last()), lines.last())
    }
}

/// Reads the menus from the cleaned lines of a post page.
pub fn menu_from_lines(lines: &Vec<String>) -> (r: MealMenu)
    ensures
        r@ == menu_after(string_views(lines@)),
{
    let ghost all = string_views(lines@);
    let mut menu = MealMenu { breakfast: String::new(), lunch: String::new(), dinner: String::new() };
    for i in 0..lines.len()
        invariant
            all == string_views(lines@),
            menu@ == menu_after(all.take(i as int)),
    {
        assert(all.take(i as int + 1).drop_last() =~= all.take(i as int));
        assert(all.take(i as int + 1).last() == lines[i as int]@);
        let parts = split_string(lines[i].as_str(), ":");
        if parts.len() >= 2 {
            let key = &parts[0];
            let mut rest: Vec<String> = Vec::new();
            for k in 1..parts.len()
                invariant
                    rest.len() == k - 1,
                    forall|j: int| 0 <= j < k - 1 ==> #[trigger] rest[j] == parts[j + 1],
            {
                rest.push(parts[k].clone());
            }
            assert(string_views(rest@) =~= string_views(parts@).drop_first());
            let joined = join_strings(&rest, ":");
            let value = trim_string(joined.as_str());
            assert(string_views(parts@)[0] == key@);
            if contains_string(key.as_str(), "조식") {
                menu.breakfast = value;
            } else if contains_string(key.as_str(), "중식") {
                menu.lunch = value;
            } else if contains_string(key.as_str(), "석식") {
                menu.dinner = value;
            }
        }
    }
    assert(all.take(lines.len() as int) =~= all);
    menu
}

/// The menus of a post page's content text: its lines cleaned, then read.
pub open spec fn menu_from_content_spec(content: Seq<char>) -> Result<
    (Seq<char>, Seq<char>, Seq<char>),
    ScrapeError,
> {
    match clean_all(split_spec(content, "\n"@)) {
        None => Err(ScrapeError::PatternRejected),
        Some(lines) => Ok(menu_after(lines)),
    }
}

/// Reads the menus from a post page's content text.
pub fn menu_from_content(content: &str) -> (r: Result<MealMenu, ScrapeError>)
    ensures
        match r {
            Ok(m) => menu_from_content_spec(content@) == Ok::<
                (Seq<char>, Seq<char>, Seq<char>),
                ScrapeError,
            >(m@),
            Err(e) => menu_from_content_spec(content@) == Err::<
                (Seq<char>, Seq<char>, Seq<char>),
                ScrapeError,
            >(e),
        },
{
    let lines = split_string(content, "\n");
    match clean_all_strings(&lines) {
        Err(e) => Err(e),
        Ok(cleaned) => Ok(menu_from_lines(&cleaned)),
    }
}

/// Reads the menus from a post page.
pub fn item_page_menu(item_html: &str) -> (r: Result<MealMenu, ScrapeError>)
    ensures
        match html_select_text(item_html@, CONTENT_SELECTOR@) {
            None => r == Err::<MealMenu, ScrapeError>(ScrapeError::HtmlRejected),
            Some(content) => match r {
                Ok(m) => menu_from_content_spec(content) == Ok::<
                    (Seq<char>, Seq<char>, Seq<char>),
                    ScrapeError,
                >(m@),
                Err(e) => menu_from_content_spec(content) == Err::<
                    (Seq<char>, Seq<char>, Seq<char>),
                    ScrapeError,
                >(e),
            },
        },
{
    match select_text(item_html, CONTENT_SELECTOR) {
        None => Err(ScrapeError::HtmlRejected),
        Some(content) => menu_from_content(content.as_str()),
    }
}

} // verus!
