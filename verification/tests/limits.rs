use html2text_nif::limits::{is_space, spans_within_limits, starts_within_limits};
use html2text_nif::{renderable, RenderConfig};

fn at_width(html: &str, width: usize) -> bool {
    renderable(html.as_bytes(), &RenderConfig { width, ..RenderConfig::default() })
}

fn within(html: &str) -> bool {
    at_width(html, 80)
}

#[test]
fn ordinary_documents_are_within_the_limits() {
    assert!(within(""));
    assert!(within("<p>Hello</p>"));
    assert!(within("<h1>2024</h1><p>call 0123456789012345678901234567890 &amp; &#8217; &lt;</p>"));
    assert!(within("<table><tr><td colspan=\"2\">a</td></tr><tr><td>b</td><td>c</td></tr></table>"));
    assert!(within("<ol start=\"5\"><li>a</li></ol>"));
    assert!(within("<a href=\"http://example.com/?id=123456789012345678901234567890&x=1\">l</a>"));
    assert!(within("<html><head><title>t</title></head><body><hr><pre>a\tb</pre></body></html>"));
    assert!(within("<ul><li>one</li><li><pre>two\n\tthree</pre></li></ul><h2>four</h2>"));
    assert!(within("<p>\u{e9}t\u{e9} \u{4e2d}\u{6587} \u{1f600} \u{627}\u{628}\u{62a} \u{2019}</p>"));
}

#[test]
fn span_past_usize_is_outside_the_limits() {
    let html =
        "<table><tr><td colspan=\"18446744073709551615\">a</td><td colspan=\"2\">b</td></tr></table>";
    assert!(!within(html));
    assert!(!at_width(html, 0));
    assert!(!spans_within_limits(html.as_bytes()));
}

#[test]
fn start_at_the_end_of_i64_is_outside_the_limits() {
    assert!(!within("<ol start=\"9223372036854775807\"><li>a</li><li>b</li></ol>"));
    assert!(!within("<ol start=\"-9223372036854775808\"></ol>"));
    assert!(!starts_within_limits(b"<ol start=\"9223372036854775807\">"));
    assert!(at_width("<ol start=\"9223372036854775807\"><li>a</li><li>b</li></ol>", 0));
}

#[test]
fn colspan_may_have_three_digits() {
    assert!(within("<td colspan=\"0\">"));
    assert!(within("<td colspan=\"999\">"));
    assert!(!within("<td colspan=\"1000\">"));
    assert!(!within("<td colspan=\"0001\">"));
    assert!(within("<td colspan=\"+999\">"));
    assert!(within("<td colspan=\"\">"));
    assert!(within("<td colspan>"));
    assert!(within("<td colspan"));
    assert!(within("<th colspan=999>"));
    assert!(!within("<th colspan=9999>"));
}

#[test]
fn start_may_have_eighteen_digits() {
    assert!(within("<ol start=\"999999999999999999\">"));
    assert!(within("<ol start=\"-999999999999999999\">"));
    assert!(!within("<ol start=\"1000000000000000000\">"));
    assert!(!within("<ol start=\"-1000000000000000000\">"));
    assert!(within("<ol start=0>"));
}

#[test]
fn rowspan_may_be_zero_or_one() {
    assert!(!within("<table><tr><td>a</td><td rowspan=\"3\" colspan=\"5\">b</td></tr></table>"));
    assert!(!within("<td rowspan=\"2\">"));
    assert!(!within("<td rowspan=9>"));
    assert!(!within("<td rowspan=\"10\">"));
    assert!(!within("<td rowspan=\"11\">"));
    assert!(!within("<td rowspan=\"1 1\">"));
    assert!(!within("<td rowspan=\"1x0\">"));
    assert!(!within("<td rowspan=\"&#49;\">"));
    assert!(!within("<td rowspan=\"&\">"));
    assert!(within("<td rowspan=1>"));
    assert!(within("<td rowspan=\"1\">"));
    assert!(within("<td rowspan='0'>"));
    assert!(within("<td rowspan=\"0001\">"));
    assert!(within("<td rowspan=\"+1\">"));
    assert!(within("<td rowspan=\"\">"));
    assert!(within("<td rowspan>"));
    assert!(within("<td rowspan=\"many\">"));
    assert!(within("<td rowspan=1 width=200>"));
}

#[test]
fn spans_count_only_where_there_is_a_cell() {
    assert!(within("rowspan=5"));
    assert!(within("<p>a rowspan=5 or a colspan=12345 is a number</p>"));
    assert!(within("<table rowspan=5 colspan=12345></table>"));
    assert!(!within("<td>a rowspan=5</td>"));
    assert!(!within("<p>a colspan=12345</p><table><tr><th>x</th></tr></table>"));
    let long = "<p>0123456789</p>".repeat(100_000);
    assert!(within(&long));
}

#[test]
fn starts_count_only_where_there_is_an_ordered_list() {
    assert!(within("<p>restart 1234567890123456789</p>"));
    assert!(within("<ul start=1234567890123456789><li>a</li></ul>"));
    assert!(!within("<ol><li>restart 1234567890123456789</li></ol>"));
    assert!(within("<ol><li>restart 123456789012345678</li></ol>"));
    assert!(within("<ol><li>started 1234567890123456789</li></ol>"));
}

#[test]
fn names_are_found_in_any_letter_case() {
    assert!(!within("<TD COLSPAN=\"1000\">"));
    assert!(!within("<td ColSpan=1000>"));
    assert!(!within("<Th cOLSPAn=1000>"));
    assert!(!within("<tD RowSpan=2>"));
    assert!(!within("<OL START=1000000000000000000>"));
    assert!(!within("<oL sTaRt=1000000000000000000>"));
    assert!(within("<td c0lspan=1000>"));
    assert!(within("<td colspam=1000>"));
    assert!(within("<td col span=1000>"));
}

#[test]
fn value_may_be_quoted_either_way_or_bare() {
    assert!(!within("<td colspan='1000'>"));
    assert!(!within("<td colspan = \"1000\">"));
    assert!(!within("<td colspan\n=\t1000>"));
    assert!(!within("<td colspan\r\n=\r\n'1000'>"));
    assert!(!within("<td colspan=\x0c1000"));
    assert!(!within("<td colspan=1000"));
    assert!(within("<td colspan='999'>"));
    assert!(within("<td colspan = 999 >"));
}

#[test]
fn character_references_count_as_digits() {
    assert!(!within("<td colspan=\"&#49;&#48;&#48;&#48;\">"));
    assert!(!within("<td colspan=\"&#x31;000\">"));
    assert!(!within("<td colspan=\"&plus;999\">"));
    assert!(!within("<td colspan=\"9&9\">"));
    assert!(within("<td colspan=\"&amp;9\">"));
    assert!(within("<td colspan=\"&9\">"));
    assert!(!within("<ol start=\"&#57;223372036854775807\">"));
}

#[test]
fn only_the_value_is_counted() {
    assert!(within("<td colspan=\"2\" width=\"100000\" height=\"200000\">123456</td>"));
    assert!(within("<td colspan=2 width=100000>"));
    assert!(within("<td colspan=99 1234>"));
    assert!(within("<td colspan='99' 1234>"));
    assert!(!within("<td colspan='99 1234'>"));
    assert!(!within("<td colspan=\"1>000\">"));
    assert!(within("<td colspan=1>000"));
    assert!(within("<td width=100000 colspan=2>"));
}

#[test]
fn every_occurrence_is_tested() {
    assert!(!within("<td colspan=1><td colspan=2><td colspan=3><td colspan=4444>"));
    assert!(!within("<td colspan=4444><td colspan=1>"));
    assert!(!within("<td>colspancolspan=1000"));
    assert!(within("<td>colspancolspan=100"));
    assert!(!within("<td colspan=1 rowspan=2>"));
    assert!(!within("<ol start=1><td colspan=1><td rowspan=''><ol start=1234567890123456789>"));
}

#[test]
fn white_space_is_what_the_tokenizer_skips() {
    let spaces: Vec<u8> = (0u8..=255).filter(|b| is_space(*b)).collect();
    assert_eq!(spaces, vec![0x09, 0x0a, 0x0c, 0x0d, 0x20]);
}

#[test]
fn raw_mode_with_cells_needs_a_width_that_adds_up() {
    let table = b"<table><tr><td>a</td><td>b</td></tr></table>";
    let raw = RenderConfig { raw_mode: true, ..RenderConfig::default() };
    assert!(renderable(table, &raw));
    assert!(renderable(table, &RenderConfig { width: 1_000_000, ..raw }));
    assert!(!renderable(table, &RenderConfig { width: usize::MAX, ..raw }));
    assert!(!renderable(table, &RenderConfig { width: usize::MAX / 2, ..raw }));
    assert!(renderable(table, &RenderConfig { width: usize::MAX, ..RenderConfig::default() }));
    assert!(!renderable(b"<TH>", &RenderConfig { width: usize::MAX, ..raw }));
    assert!(!renderable(b"x<tD", &RenderConfig { width: usize::MAX, ..raw }));
}

#[test]
fn raw_mode_without_cells_takes_any_width() {
    let raw = RenderConfig { raw_mode: true, width: usize::MAX, ..RenderConfig::default() };
    assert!(renderable(b"", &raw));
    assert!(renderable(b"<p>Hello</p>", &raw));
    assert!(renderable(b"<table></table><tr><t d>< td><tx>", &raw));
}

#[test]
fn width_product_is_exact_at_the_limit() {
    let raw = RenderConfig { raw_mode: true, ..RenderConfig::default() };
    let html = b"<td>";
    assert!(renderable(html, &RenderConfig { width: usize::MAX / 4 - 4, ..raw }));
    assert!(!renderable(html, &RenderConfig { width: usize::MAX / 4 - 3, ..raw }));
}

#[test]
fn padding_needs_room_for_the_widest_span() {
    let padded = RenderConfig { pad_block_width: true, ..RenderConfig::default() };
    let html = b"<p>Hello</p>";
    assert!(renderable(html, &padded));
    assert!(renderable(html, &RenderConfig { width: isize::MAX as usize - 12, ..padded }));
    assert!(!renderable(html, &RenderConfig { width: isize::MAX as usize - 11, ..padded }));
    assert!(!renderable(html, &RenderConfig { width: isize::MAX as usize, ..padded }));
    assert!(!renderable(html, &RenderConfig { width: usize::MAX, ..padded }));
    assert!(renderable(b"", &RenderConfig { width: isize::MAX as usize, ..padded }));
    assert!(!renderable(b"", &RenderConfig { width: isize::MAX as usize + 1, ..padded }));
    assert!(renderable(html, &RenderConfig { width: usize::MAX, ..RenderConfig::default() }));
}

#[test]
fn minimum_wrap_width_is_not_limited() {
    let config = RenderConfig::default();
    assert!(renderable(b"<p>x</p>", &RenderConfig { min_wrap_width: 0, ..config }));
    assert!(renderable(b"<p>x</p>", &RenderConfig { min_wrap_width: usize::MAX, ..config }));
}

#[test]
fn preformatted_text_needs_a_width_beyond_all_prefixes() {
    let item = "<ul><li><pre>\t</pre></li></ul>";
    assert!(!at_width(item, 1));
    assert!(!at_width(item, 2));
    assert!(at_width(item, 3));
    assert!(at_width(item, 80));
    assert!(!at_width("<blockquote><pre>\t</pre></blockquote>", 2));
    assert!(at_width("<blockquote><pre>\t</pre></blockquote>", 3));
    assert!(!at_width("<dl><dd><pre>\t</pre></dd></dl>", 2));
    assert!(at_width("<dl><dd><pre>\t</pre></dd></dl>", 3));
    assert!(!at_width("<h1><pre>\t</pre></h1>", 7));
    assert!(at_width("<H6><PRE>\t</PRE></H6>", 8));
    assert!(!at_width("<ol><li><pre>x</pre></li></ol>", 22));
    assert!(at_width("<ol><li><pre>x</pre></li></ol>", 23));
    let quotes = "<blockquote>".repeat(40) + "<pre>\t</pre>";
    assert!(!at_width(&quotes, 80));
    assert!(at_width(&quotes, 81));
    assert!(at_width(&quotes, usize::MAX));
}

#[test]
fn preformatted_text_alone_takes_any_width() {
    assert!(at_width("<pre>\t</pre>", 1));
    assert!(at_width("<div><p><pre> \u{200c}</pre></p></div>", 1));
    assert!(at_width("<html><head></head><body><hr><header><pre>\t</pre></header></body></html>", 1));
    assert!(at_width("<table><tr><td><pre>\t</pre></td></tr></table>", 1));
}

#[test]
fn narrow_blocks_without_preformatted_text_take_any_width() {
    assert!(at_width("<ul><li>a<ol><li>b<blockquote>c</blockquote></li></ol></li></ul>", 1));
    assert!(at_width("<table><tr><td><ul><li>a</li></ul></td></tr></table>", 1));
}

#[test]
fn preformatted_text_in_a_narrowed_cell_is_outside_the_limits() {
    let html = "<table><tr><td><ul><li><pre>x</pre></li></ul></td></tr></table>";
    assert!(!at_width(html, 80));
    assert!(!at_width(html, usize::MAX));
    assert!(at_width(html, 0));
}

#[test]
fn width_zero_needs_the_spans_only() {
    assert!(at_width("<ul><li><pre>\t</pre></li></ul>", 0));
    assert!(at_width("<table><tr><td>\u{644}\u{200b}\u{627}</td></tr></table>", 0));
    assert!(!at_width("<td rowspan=2>", 0));
    assert!(!at_width("<td colspan=1000>", 0));
    let padded = RenderConfig { pad_block_width: true, width: 0, ..RenderConfig::default() };
    assert!(renderable(b"<p>Hello</p>", &padded));
}

#[test]
fn joining_characters_need_a_line_for_the_whole_text() {
    let html = "<p>\u{644}\u{627}</p>";
    assert_eq!(html.len(), 11);
    assert!(!at_width(html, 80));
    assert!(!at_width(html, 351));
    assert!(at_width(html, 352));
    assert!(at_width(html, usize::MAX));
    assert!(!within("<p>\u{2764}\u{fe0f}</p>"));
    assert!(!within("<p>\u{1f44d}\u{1f3fd}</p>"));
    assert!(!within("<p>\u{1f468}\u{200d}\u{1f469}</p>"));
    assert!(!within("<p>\u{1780}\u{17d2}\u{1780}</p>"));
    assert!(!within("<p>\u{2d31}\u{2d7f}\u{2d31}</p>"));
    assert!(!within("<p>\u{a4f8}\u{a4fc}</p>"));
    assert!(!within("<p>\u{16d63}\u{16d67}</p>"));
    assert!(!within("<p>\u{6b5}</p>"));
    assert!(!within("<p>\u{76a}</p>"));
    assert!(!within("<p>\u{8a6}\u{8c7}</p>"));
    assert!(within("<p>\u{627}\u{645}\u{646} \u{1f600} \u{2764} \u{a4f8} \u{1780} e\u{301}</p>"));
}

#[test]
fn joining_characters_are_found_in_references() {
    assert!(!within("<p>&#x644;</p>"));
    assert!(!within("<p>&#X644;</p>"));
    assert!(!within("<p>&#x0000644;</p>"));
    assert!(!within("<p>&#1604;</p>"));
    assert!(!within("<p>&#01604</p>"));
    assert!(!within("<p>&#x200d;</p>"));
    assert!(!within("<p>&#xFE0F;</p>"));
    assert!(!within("<p>&#x1F3FB;</p>"));
    assert!(!within("<p>&zwj;</p>"));
    assert!(within("<p>&zwnj;</p>"));
    assert!(within("<p>&Zwj;</p>"));
    assert!(within("<p>&#x645;</p>"));
    assert!(within("<p>&#1605;</p>"));
    assert!(within("<p>&#8217;</p>"));
    assert!(within("<p>&#xFE10;</p>"));
    assert!(within("<p>&#99999999999999999999;</p>"));
    assert!(within("<p>&#xFFFFFFFFFFFFFFFF200d;</p>"));
    assert!(within("<p>&# 1604;</p>"));
    assert!(within("<p>#1604; x644</p>"));
}

#[test]
fn joining_characters_go_with_no_break_and_no_cell() {
    let wide = usize::MAX;
    assert!(at_width("<p>\u{644}\u{627}</p>", wide));
    assert!(!at_width("<p>\u{644}\u{200b}\u{627}</p>", wide));
    assert!(!at_width("<p>\u{644}<wbr>\u{627}</p>", wide));
    assert!(!at_width("<p>\u{644}<WBR>\u{627}</p>", wide));
    assert!(!at_width("<p>\u{644}&#x200b;\u{627}</p>", wide));
    assert!(!at_width("<p>\u{644}&#8203;\u{627}</p>", wide));
    assert!(!at_width("<p>\u{644}&ZeroWidthSpace;\u{627}</p>", wide));
    assert!(!at_width("<p>\u{644}&NegativeThinSpace;\u{627}</p>", wide));
    assert!(!at_width("<table><tr><td>\u{644}\u{627}</td></tr></table>", wide));
    assert!(!at_width("<table><tr><td>&#x644;&#x200b;&#x627;</td></tr></table>", 80));
    assert!(within("<table><tr><td>a\u{200b}b<wbr>c&#x200b;d</td></tr></table>"));
}
