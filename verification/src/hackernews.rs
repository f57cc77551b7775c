//! The reference search tool: the digest it builds from search hits, the
//! page-text reduction used for excerpts, and the tool's fixed identity.
//! Fetching itself is left to the surrounding shell; the hits arrive here as
//! plain values.
use vstd::prelude::*;
use crate::strings::{
    find_first_from, first_match, first_match_from, lemma_first_match_found, trim_spec,
    trim_str,
};
use crate::prompt::{join_with, join_strings, lemma_join_push};

verus! {

/// `s` cut at every occurrence of `c`: the pieces between separators, in
/// order; an empty `s` is one empty piece.
pub open spec fn split_char(s: Seq<char>, c: char) -> Seq<Seq<char>>
    decreases s.len(),
{
    match first_match(s, seq![c]) {
        Some(i) => if 0 <= i < s.len() {
            seq![s.subrange(0, i)] + split_char(s.subrange(i + 1, s.len() as int), c)
        } else {
            seq![s]
        },
        None => seq![s],
    }
}

/// A first match found beyond an offset is the first match of the suffix,
/// shifted by that offset.
proof fn lemma_first_match_shift(s: Seq<char>, pat: Seq<char>, off: int, i: int)
    requires
        0 <= off <= s.len(),
        off <= i <= s.len() + 1,
    ensures
        first_match_from(s, pat, i) == (match first_match_from(
            s.subrange(off, s.len() as int),
            pat,
            i - off,
        ) {
            Some(k) => Some(k + off),
            None => None::<int>,
        }),
    decreases s.len() - i + 1,
{
    let t = s.subrange(off, s.len() as int);
    if i + pat.len() > s.len() {
        assert((i - off) + pat.len() > t.len());
    } else {
        assert(s.subrange(i, i + pat.len() as int) =~= t.subrange(
            i - off,
            i - off + pat.len() as int,
        ));
        if s.subrange(i, i + pat.len() as int) == pat {
        } else {
            lemma_first_match_shift(s, pat, off, i + 1);
        }
    }
}

/// Cut a string at every newline.
pub fn split_lines(s: &str) -> (r: Vec<String>)
    ensures
        r.deep_view() == split_char(s@, '\n'),
{
    proof {
        reveal_strlit("\n");
        assert("\n"@ =~= seq!['\n']);
    }
    let n = s.unicode_len();
    let mut out: Vec<String> = Vec::new();
    let mut pos: usize = 0;
    proof {
        assert(out.deep_view() =~= Seq::<Seq<char>>::empty());
        assert(s@.subrange(0, n as int) =~= s@);
        assert(out.deep_view() + split_char(s@, '\n') =~= split_char(s@, '\n'));
    }
    loop
        invariant
            n == s@.len(),
            n <= usize::MAX,
            pos <= n,
            "\n"@ =~= seq!['\n'],
            split_char(s@, '\n') == out.deep_view() + split_char(
                s@.subrange(pos as int, n as int),
                '\n',
            ),
        decreases n - pos,
    {
        let ghost t = s@.subrange(pos as int, n as int);
        match find_first_from(s, "\n", pos) {
            None => {
                let piece = s.substring_char(pos, n);
                out.push(String::from_str(piece));
                proof {
                    lemma_first_match_shift(s@, "\n"@, pos as int, pos as int);
                    assert(first_match(t, seq!['\n']) is None);
                    assert(split_char(t, '\n') == seq![t]);
                    assert(out.deep_view() =~= split_char(s@, '\n'));
                }
                return out;
            },
            Some(j) => {
                proof {
                    lemma_first_match_shift(s@, "\n"@, pos as int, pos as int);
                    lemma_first_match_found(s@, "\n"@, pos as int, j as int);
                }
                let piece = s.substring_char(pos, j);
                out.push(String::from_str(piece));
                proof {
                    assert(first_match(t, seq!['\n']) == Some(j - pos));
                    assert(t.subrange(0, j - pos) =~= s@.subrange(pos as int, j as int));
                    assert(t.subrange(j - pos + 1, t.len() as int) =~= s@.subrange(
                        j + 1,
                        n as int,
                    ));
                    assert(split_char(t, '\n') == seq![s@.subrange(pos as int, j as int)]
                        + split_char(s@.subrange(j + 1, n as int), '\n'));
                    assert(out.deep_view() + split_char(s@.subrange(j + 1, n as int), '\n')
                        =~= split_char(s@, '\n'));
                }
                pos = j + 1;
            },
        }
    }
}

/// The lines kept in a digest: each line trimmed, empty lines dropped, and at
/// most `cap` lines kept, in order.
pub open spec fn kept_capped(lines: Seq<Seq<char>>, cap: nat) -> Seq<Seq<char>>
    decreases lines.len(),
{
    if lines.len() == 0 || cap == 0 {
        Seq::empty()
    } else {
        let t = trim_spec(lines[0]);
        if t.len() == 0 {
            kept_capped(lines.drop_first(), cap)
        } else {
            seq![t] + kept_capped(lines.drop_first(), (cap - 1) as nat)
        }
    }
}

/// No more than `cap` lines are ever kept.
proof fn lemma_kept_capped_len(lines: Seq<Seq<char>>, cap: nat)
    ensures
        kept_capped(lines, cap).len() <= cap,
    decreases lines.len(),
{
    if lines.len() != 0 && cap != 0 {
        lemma_kept_capped_len(lines.drop_first(), cap);
        lemma_kept_capped_len(lines.drop_first(), (cap - 1) as nat);
    }
}

/// Appending one line extends the kept lines by its trim when it is
/// non-empty and the cap is not yet reached.
proof fn lemma_kept_capped_push(lines: Seq<Seq<char>>, cap: nat, x: Seq<char>)
    ensures
        kept_capped(lines.push(x), cap) == (if kept_capped(lines, cap).len() < cap && trim_spec(
            x,
        ).len() != 0 {
            kept_capped(lines, cap).push(trim_spec(x))
        } else {
            kept_capped(lines, cap)
        }),
    decreases lines.len(),
{
    lemma_kept_capped_len(lines, cap);
    if lines.len() == 0 {
        if cap == 0 {
            assert(kept_capped(lines.push(x), cap) =~= kept_capped(lines, cap));
        } else {
            assert(lines.push(x)[0] == x);
            assert(lines.push(x).drop_first() =~= Seq::<Seq<char>>::empty());
            assert(kept_capped(Seq::<Seq<char>>::empty(), cap) =~= Seq::<Seq<char>>::empty());
            assert(kept_capped(Seq::<Seq<char>>::empty(), (cap - 1) as nat)
                =~= Seq::<Seq<char>>::empty());
            if trim_spec(x).len() != 0 {
                assert(kept_capped(lines.push(x), cap) =~= kept_capped(lines, cap).push(
                    trim_spec(x),
                ));
            } else {
                assert(kept_capped(lines.push(x), cap) =~= kept_capped(lines, cap));
            }
        }
    } else if cap == 0 {
        assert(kept_capped(lines.push(x), cap) =~= kept_capped(lines, cap));
    } else {
        assert(lines.push(x)[0] == lines[0]);
        assert(lines.push(x).drop_first() =~= lines.drop_first().push(x));
        let t = trim_spec(lines[0]);
        if t.len() == 0 {
            lemma_kept_capped_push(lines.drop_first(), cap, x);
            if kept_capped(lines, cap).len() < cap && trim_spec(x).len() != 0 {
                assert(kept_capped(lines.push(x), cap) =~= kept_capped(lines, cap).push(
                    trim_spec(x),
                ));
            } else {
                assert(kept_capped(lines.push(x), cap) =~= kept_capped(lines, cap));
            }
        } else {
            lemma_kept_capped_push(lines.drop_first(), (cap - 1) as nat, x);
            lemma_kept_capped_len(lines.drop_first(), (cap - 1) as nat);
            if kept_capped(lines, cap).len() < cap && trim_spec(x).len() != 0 {
                assert(kept_capped(lines.push(x), cap) =~= kept_capped(lines, cap).push(
                    trim_spec(x),
                ));
            } else {
                assert(kept_capped(lines.push(x), cap) =~= kept_capped(lines, cap));
            }
        }
    }
}

/// Reduce page text to a digest: each line trimmed, empty lines dropped, at
/// most `max_lines` lines kept, newline-joined.
pub fn digest_lines(text: &str, max_lines: usize) -> (r: String)
    ensures
        r@ == join_with(kept_capped(split_char(text@, '\n'), max_lines as nat), "\n"@),
{
    let lines = split_lines(text);
    let ghost all = lines.deep_view();
    let mut kept: Vec<String> = Vec::new();
    let mut k: usize = 0;
    while k < lines.len()
        invariant
            k <= lines@.len(),
            all == lines.deep_view(),
            all.len() == lines@.len(),
            kept.deep_view() == kept_capped(all.take(k as int), max_lines as nat),
            kept@.len() <= max_lines,
        decreases lines@.len() - k,
    {
        proof {
            lemma_kept_capped_push(all.take(k as int), max_lines as nat, all[k as int]);
            assert(all.take(k + 1) =~= all.take(k as int).push(all[k as int]));
            assert(all[k as int] == lines@[k as int]@);
        }
        let t = trim_str(lines[k].as_str());
        if t.unicode_len() > 0 && kept.len() < max_lines {
            kept.push(String::from_str(t));
            proof {
                assert(kept.deep_view() =~= kept_capped(all.take(k + 1), max_lines as nat));
            }
        } else {
            proof {
                assert(kept.deep_view() =~= kept_capped(all.take(k + 1), max_lines as nat));
            }
        }
        k += 1;
    }
    proof {
        assert(all.take(lines@.len() as int) =~= all);
    }
    join_strings(&kept, "\n")
}

/// At most this many lines of crawled page text are kept in an excerpt.
pub const EXCERPT_LINE_CAP: usize = 2000;

/// What the text of an HTML document is, as scraper extracts it.
pub uninterp spec fn html_text(h: Seq<char>) -> Seq<char>;

/// Relies on scraper: `Html::parse_document` followed by collecting the root
/// element's text depends on the document text alone.
#[verifier::external_body]
fn html_to_text(html: &str) -> (r: String)
    ensures
        r@ == html_text(html@),
{
    let document = scraper::Html::parse_document(html);
    document.root_element().text().collect::<String>()
}

/// Reduce a fetched page to its excerpt: the page's text, each line trimmed,
/// empty lines dropped, at most `max_lines` lines kept, newline-joined.
pub fn extract_text_from(html: &str, max_lines: usize) -> (r: String)
    ensures
        r@ == join_with(
            kept_capped(split_char(html_text(html@), '\n'), max_lines as nat),
            "\n"@,
        ),
{
    let text = html_to_text(html);
    digest_lines(text.as_str(), max_lines)
}

/// What accompanies one search hit in the digest: a crawled page excerpt, a
/// top community comment, or nothing.
pub enum Annotation {
    Excerpt(String),
    Comment(String),
    Nothing,
}

/// One search hit already reduced to plain values.
pub struct HitSummary {
    pub title: String,
    pub annotation: Annotation,
}

/// The digest lines one hit contributes.
pub open spec fn hit_digest(h: HitSummary) -> Seq<char> {
    "Title: "@ + h.title@ + "\n"@ + match h.annotation {
        Annotation::Excerpt(e) => "\tExcerpt: "@ + e@ + "\n"@,
        Annotation::Comment(c) => "\tComment: "@ + c@ + "\n"@,
        Annotation::Nothing => Seq::<char>::empty(),
    }
}

/// The digests of a sequence of hits, concatenated in order.
pub open spec fn digest_of(hits: Seq<HitSummary>) -> Seq<char>
    decreases hits.len(),
{
    if hits.len() == 0 {
        Seq::empty()
    } else {
        hit_digest(hits[0]) + digest_of(hits.drop_first())
    }
}

/// Appending one hit appends its digest.
proof fn lemma_digest_push(hits: Seq<HitSummary>, x: HitSummary)
    ensures
        digest_of(hits.push(x)) == digest_of(hits) + hit_digest(x),
    decreases hits.len(),
{
    if hits.len() == 0 {
        assert(hits.push(x)[0] == x);
        assert(hits.push(x).drop_first() =~= Seq::<HitSummary>::empty());
        assert(digest_of(Seq::<HitSummary>::empty()) =~= Seq::<char>::empty());
        assert(digest_of(hits.push(x)) =~= digest_of(hits) + hit_digest(x));
    } else {
        lemma_digest_push(hits.drop_first(), x);
        assert(hits.push(x)[0] == hits[0]);
        assert(hits.push(x).drop_first() =~= hits.drop_first().push(x));
        assert(digest_of(hits.push(x)) =~= digest_of(hits) + hit_digest(x));
    }
}

/// The first hits a digest covers: all of them, capped at five, the search
/// tool's fixed item count.
pub open spec fn capped_hits(hits: Seq<HitSummary>) -> Seq<HitSummary> {
    if hits.len() <= 5 {
        hits
    } else {
        hits.take(5)
    }
}

/// The search digest: `Title:` lines with their excerpt or comment, for the
/// first hits, capped at five.
pub fn format_hits(hits: &Vec<HitSummary>) -> (r: String)
    ensures
        r@ == digest_of(capped_hits(hits@)),
{
    let m: usize = if hits.len() <= 5 {
        hits.len()
    } else {
        5
    };
    let mut acc = String::new();
    let mut k: usize = 0;
    while k < m
        invariant
            k <= m,
            m == capped_hits(hits@).len(),
            m <= hits@.len(),
            acc@ == digest_of(hits@.take(k as int)),
        decreases m - k,
    {
        proof {
            lemma_digest_push(hits@.take(k as int), hits@[k as int]);
            assert(hits@.take(k + 1) =~= hits@.take(k as int).push(hits@[k as int]));
        }
        acc.append("Title: ");
        acc.append(hits[k].title.as_str());
        acc.append("\n");
        match &hits[k].annotation {
            Annotation::Excerpt(e) => {
                acc.append("\tExcerpt: ");
                acc.append(e.as_str());
                acc.append("\n");
            },
            Annotation::Comment(c) => {
                acc.append("\tComment: ");
                acc.append(c.as_str());
                acc.append("\n");
            },
            Annotation::Nothing => {},
        }
        proof {
            assert(acc@ =~= digest_of(hits@.take(k + 1)));
        }
        k += 1;
    }
    proof {
        assert(hits@.take(m as int) =~= capped_hits(hits@));
    }
    acc
}

/// The reference search tool's identity: its registry name, its model-facing
/// description, and whether result pages are crawled for excerpts. The
/// fetching itself lives with the surrounding shell.
pub struct HackerNewsSearchTool {
    pub name: String,
    pub description: String,
    pub crawl_urls: bool,
}

impl HackerNewsSearchTool {
    /// The tool under its fixed name and description, with crawling off.
    pub fn new() -> (r: HackerNewsSearchTool)
        ensures
            r.name@ == "hacker news search"@,
            r.description@
                == "Get insight from hacker news users to specific search terms. Input should be a search term (e.g. How to get rich?). The output will be the most recent stories related to it with a user comment."@,
            r.crawl_urls == false,
    {
        HackerNewsSearchTool {
            name: String::from_str("hacker news search"),
            description: String::from_str(
                "Get insight from hacker news users to specific search terms. Input should be a search term (e.g. How to get rich?). The output will be the most recent stories related to it with a user comment.",
            ),
            crawl_urls: false,
        }
    }

    /// The registry name.
    pub fn name(&self) -> (r: String)
        ensures
            r@ == self.name@,
    {
        self.name.clone()
    }

    /// The model-facing description.
    pub fn description(&self) -> (r: String)
        ensures
            r@ == self.description@,
    {
        self.description.clone()
    }
}

} // verus!
