use dimigomeal::error::ScrapeError;
use dimigomeal::scrape::{
    column_indices, header_columns, item_page_menu, list_rows, menu_from_content,
    menu_from_lines, post_from_cells, post_from_row, Columns,
};

const LIST_PAGE: &str = r#"<html><body>
<table id="siLst">
<thead><tr><th>번호</th><th> 제목 </th><th>글쓴이</th><th><span>등록일</span></th></tr></thead>
<tbody>
<tr><td>1234</td><td class="title"><a href="https://example.org/post/1234">3월 15일 식단</a></td><td>관리자</td><td>2024-03-14</td></tr>
<tr><td>1233</td><td class="title"><a href="https://example.org/post/1233">공지사항</a></td><td>관리자</td><td>2024-03-13</td></tr>
</tbody>
</table>
</body></html>"#;

const ITEM_PAGE: &str = r#"<html><body><div class="scConDoc">
<p>*조식 : 밥, 국</p>
<p>*중식 : 비빔밥: 특식</p>
<p>*석식 : 카레</p>
<p>안내</p>
</div></body></html>"#;

fn strings(parts: &[&str]) -> Vec<String> {
    parts.iter().map(|s| s.to_string()).collect()
}

#[test]
fn header_cells_name_the_columns() {
    assert_eq!(header_columns(LIST_PAGE), Ok(Columns { id: 0, title: 1, date: 3 }));
}

#[test]
fn later_header_cells_win_and_missing_ones_default_to_first() {
    let cols = column_indices(&strings(&["제목", "번호", "제목"]));
    assert_eq!(cols, Columns { id: 1, title: 2, date: 0 });
}

#[test]
fn rows_of_the_list_page() {
    let rows = list_rows(LIST_PAGE).unwrap();
    assert_eq!(rows.len(), 2);
    assert!(rows[0].contains("1234"));
}

#[test]
fn a_meal_row_gives_a_post() {
    let cols = header_columns(LIST_PAGE).unwrap();
    let rows = list_rows(LIST_PAGE).unwrap();
    let post = post_from_row(&rows[0], cols).unwrap().unwrap();
    assert_eq!(post.id, 1234);
    assert_eq!(post.title, "3월15일식단");
    assert_eq!(post.date_text, "2024-03-14");
    assert_eq!(post.url, "https://example.org/post/1234");
    assert_eq!(post.date, "2024-03-15");
}

#[test]
fn a_row_without_month_is_skipped() {
    let cols = header_columns(LIST_PAGE).unwrap();
    let rows = list_rows(LIST_PAGE).unwrap();
    assert!(post_from_row(&rows[1], cols).unwrap().is_none());
}

#[test]
fn a_row_without_link_is_an_error() {
    let cols = Columns { id: 0, title: 1, date: 2 };
    assert_eq!(
        post_from_row("<td>1</td><td>3월 1일</td><td>2024-02-29</td>", cols).err(),
        Some(ScrapeError::MissingLink)
    );
}

#[test]
fn post_from_cells_reads_numbers_and_dates() {
    let cols = Columns { id: 0, title: 1, date: 2 };
    let ok = post_from_cells(&strings(&["7", "2월 29일", "2024-02-28"]), "u".to_string(), cols);
    assert_eq!(ok.unwrap().unwrap().date, "2024-02-29");
    let bad_id = post_from_cells(&strings(&["x", "2월 29일", "2024-02-28"]), "u".to_string(), cols);
    assert_eq!(bad_id.err(), Some(ScrapeError::BadNumber));
    let bad_day = post_from_cells(&strings(&["7", "2월 30일", "2024-02-28"]), "u".to_string(), cols);
    assert_eq!(bad_day.err(), Some(ScrapeError::BadDate));
    let short_date = post_from_cells(&strings(&["7", "2월 3일", "2024/02/28"]), "u".to_string(), cols);
    assert!(short_date.unwrap().is_none());
    let month_zero = post_from_cells(&strings(&["7", "0월 3일", "2024-02-28"]), "u".to_string(), cols);
    assert_eq!(month_zero.err(), Some(ScrapeError::BadDate));
    let no_day = post_from_cells(&strings(&["7", "2월 일", "2024-02-28"]), "u".to_string(), cols);
    assert_eq!(no_day.err(), Some(ScrapeError::NoNumber));
}

#[test]
fn menu_lines_fill_the_three_meals() {
    let menu = menu_from_lines(&strings(&["조식:밥,국", "중식:비빔밥:특식", "석식:", "기타:x", "없음"]));
    assert_eq!(menu.breakfast, "밥,국");
    assert_eq!(menu.lunch, "비빔밥:특식");
    assert_eq!(menu.dinner, "");
}

#[test]
fn menu_content_is_cleaned_line_by_line() {
    let menu = menu_from_content("*조식 : 밥\n<b>중식</b> : 면\n석식:빵").unwrap();
    assert_eq!(menu.breakfast, "밥");
    assert_eq!(menu.lunch, "면");
    assert_eq!(menu.dinner, "빵");
}

#[test]
fn item_page_gives_the_menus() {
    let menu = item_page_menu(ITEM_PAGE).unwrap();
    assert_eq!(menu.breakfast, "밥,국");
    assert_eq!(menu.lunch, "비빔밥:특식");
    assert_eq!(menu.dinner, "카레");
}
