use react_agent::chatllm::extract_code_block;
use react_agent::hackernews::{
    digest_lines, extract_text_from, format_hits, Annotation, HackerNewsSearchTool, HitSummary,
};

#[test]
fn digest_trims_lines_and_drops_empty_ones() {
    assert_eq!(digest_lines("  a  \n\n   \n b \nc", 10), "a\nb\nc");
}

#[test]
fn digest_caps_the_line_count() {
    assert_eq!(digest_lines("a\nb\nc\nd", 2), "a\nb");
    assert_eq!(digest_lines("a\nb\nc\nd", 0), "");
}

#[test]
fn digest_of_empty_text_is_empty() {
    assert_eq!(digest_lines("", 5), "");
    assert_eq!(digest_lines("  \n \n", 5), "");
}

#[test]
fn page_text_is_extracted_not_echoed() {
    let html = "<html><body><p>  hello  </p><p>world</p></body></html>";
    assert_eq!(extract_text_from(html, 10), "hello  world");
}

#[test]
fn page_text_respects_the_line_cap() {
    let html = "<html><body><pre>one\ntwo\nthree</pre></body></html>";
    assert_eq!(extract_text_from(html, 2), "one\ntwo");
}

#[test]
fn hits_format_with_excerpt_comment_and_nothing() {
    let hits = vec![
        HitSummary {
            title: "A story".to_string(),
            annotation: Annotation::Excerpt("some text".to_string()),
        },
        HitSummary {
            title: "Another".to_string(),
            annotation: Annotation::Comment("a remark".to_string()),
        },
        HitSummary { title: "Bare".to_string(), annotation: Annotation::Nothing },
    ];
    assert_eq!(
        format_hits(&hits),
        "Title: A story\n\tExcerpt: some text\nTitle: Another\n\tComment: a remark\nTitle: Bare\n"
    );
}

#[test]
fn hits_are_capped_at_five() {
    let hits: Vec<HitSummary> = (0..7)
        .map(|i| HitSummary {
            title: format!("t{}", i),
            annotation: Annotation::Nothing,
        })
        .collect();
    assert_eq!(
        format_hits(&hits),
        "Title: t0\nTitle: t1\nTitle: t2\nTitle: t3\nTitle: t4\n"
    );
}

#[test]
fn search_tool_identity() {
    let t = HackerNewsSearchTool::new();
    assert_eq!(t.name(), "hacker news search");
    assert!(t.description().starts_with("Get insight from hacker news users"));
    assert!(!t.crawl_urls);
}

#[test]
fn code_block_selection() {
    assert_eq!(extract_code_block("no fences here", true), "no fences here");
    assert_eq!(extract_code_block("before ```let x = 1;``` after", true), "let x = 1;");
    assert_eq!(extract_code_block("open ```unclosed rest", true), "unclosed rest");
    assert_eq!(extract_code_block("```a```b```c", true), "a");
    assert_eq!(extract_code_block("``` fenced ```", false), "``` fenced ```");
}
