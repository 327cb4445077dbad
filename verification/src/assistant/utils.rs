//! Search-result shaping: citation formatting and deduplicated source
//! listings.

use vstd::prelude::*;
use crate::assistant::text::{spec_join, join_strings, spec_dec_str, u64_to_string, str_eq};

verus! {

/// One web-search hit.
#[derive(Debug, Clone)]
pub struct SearchResult {
    pub title: String,
    pub url: String,
    pub content: String,
    pub raw_content: Option<String>,
}

#[verifier::ext_equal]
pub struct SearchResultView {
    pub title: Seq<char>,
    pub url: Seq<char>,
    pub content: Seq<char>,
    pub raw_content: Option<Seq<char>>,
}

impl View for SearchResult {
    type V = SearchResultView;

    open spec fn view(&self) -> SearchResultView {
        SearchResultView {
            title: self.title@,
            url: self.url@,
            content: self.content@,
            raw_content: match self.raw_content {
                Some(s) => Some(s@),
                None => None,
            },
        }
    }
}

impl DeepView for SearchResult {
    type V = SearchResultView;

    open spec fn deep_view(&self) -> SearchResultView {
        self.view()
    }
}

/// What one web search returned.
#[derive(Debug, Clone)]
pub struct SearchResponse {
    pub results: Vec<SearchResult>,
}

impl View for SearchResponse {
    type V = Seq<SearchResultView>;

    open spec fn view(&self) -> Seq<SearchResultView> {
        self.results.deep_view()
    }
}

/// The one-line citation for a search hit.
pub open spec fn spec_source_line(r: SearchResultView) -> Seq<char> {
    "* "@ + r.title + " : "@ + r.url
}

/// The citation lines of all hits, one per line.
pub open spec fn spec_format_sources(rs: Seq<SearchResultView>) -> Seq<char> {
    spec_join(rs.map_values(|r: SearchResultView| spec_source_line(r)), "\n"@)
}

/// Formats every hit as a one-line citation, newline-separated.
pub fn format_sources(search_results: &SearchResponse) -> (r: String)
    ensures
        r@ == spec_format_sources(search_results@),
{
    let rs = &search_results.results;
    let ghost dv = rs.deep_view();
    let mut lines: Vec<String> = Vec::new();
    let mut i: usize = 0;
    while i < rs.len()
        invariant
            0 <= i <= rs.len(),
            dv == rs.deep_view(),
            dv.len() == rs.len(),
            lines@.len() == i,
            forall|k: int| 0 <= k < i ==> (#[trigger] lines@[k])@ == spec_source_line(dv[k]),
        decreases rs.len() - i,
    {
        let mut line = "* ".to_string();
        line.append(rs[i].title.as_str());
        line.append(" : ");
        line.append(rs[i].url.as_str());
        proof {
            assert(dv[i as int] == rs[i as int]@);
            assert(line@ == spec_source_line(dv[i as int]));
        }
        lines.push(line);
        i += 1;
    }
    proof {
        let f = |r: SearchResultView| spec_source_line(r);
        assert forall|k: int| 0 <= k < dv.len() implies lines.deep_view()[k] == dv.map_values(f)[k]
        by {
            assert(lines.deep_view()[k] == lines@[k].deep_view());
            assert(lines@[k].deep_view() == lines@[k]@);
            assert(dv.map_values(f)[k] == f(dv[k]));
        }
        assert(lines.deep_view() =~= dv.map_values(f));
    }
    join_strings(&lines, "\n")
}

/// Whether a later hit has the same URL and so supersedes this one: of
/// several hits with one URL, the last supplies the listing's block.
pub open spec fn spec_superseded_later(rs: Seq<SearchResultView>, i: int) -> bool {
    exists|j: int| i < j < rs.len() && rs[j].url == rs[i].url
}

/// The text cut to `limit` characters, with a marker when anything was
/// cut.  The budget deliberately counts characters, not encoded bytes: a
/// cut can then never fall inside one character's encoding, at the price
/// of keeping more bytes than a byte budget would on multi-byte text.
pub open spec fn spec_truncated(t: Seq<char>, limit: nat) -> Seq<char> {
    if t.len() > limit {
        t.take(limit as int) + "... [truncated]"@
    } else {
        t
    }
}

/// The formatted block for one search hit.
pub open spec fn spec_source_entry(
    r: SearchResultView,
    max_tokens: nat,
    include_raw: bool,
) -> Seq<char> {
    let base = "Source "@ + r.title + ":\n===\n"@ + "URL: "@ + r.url + "\n===\n"@
        + "Most relevant content from source: "@ + r.content + "\n===\n"@;
    if include_raw {
        match r.raw_content {
            Some(raw) => base + "Full source content limited to "@ + spec_dec_str(max_tokens)
                + " tokens: "@ + spec_truncated(raw, max_tokens * 4) + "\n\n"@,
            None => base,
        }
    } else {
        base
    }
}

/// The formatted blocks of the first `n` hits, skipping every hit that a
/// later hit with the same URL supersedes: each URL keeps exactly one
/// block, taken from its last hit.
pub open spec fn spec_source_entries(
    rs: Seq<SearchResultView>,
    n: int,
    max_tokens: nat,
    include_raw: bool,
) -> Seq<char>
    decreases n,
{
    if n <= 0 {
        Seq::empty()
    } else {
        spec_source_entries(rs, n - 1, max_tokens, include_raw) + if spec_superseded_later(
            rs,
            n - 1,
        ) {
            Seq::empty()
        } else {
            spec_source_entry(rs[n - 1], max_tokens, include_raw)
        }
    }
}

/// A whitespace character: blank, newline, tab or carriage return.
pub open spec fn spec_is_ws(c: char) -> bool {
    c == ' ' || c == '\n' || c == '\t' || c == '\r'
}

/// The text without its trailing whitespace.
pub open spec fn spec_trim_end(s: Seq<char>) -> Seq<char>
    decreases s.len(),
{
    if s.len() > 0 && spec_is_ws(s.last()) {
        spec_trim_end(s.drop_last())
    } else {
        s
    }
}

/// The text without its leading whitespace.
pub open spec fn spec_trim_start(s: Seq<char>) -> Seq<char>
    decreases s.len(),
{
    if s.len() > 0 && spec_is_ws(s[0]) {
        spec_trim_start(s.drop_first())
    } else {
        s
    }
}

/// The text without leading and trailing whitespace.
pub open spec fn spec_trim(s: Seq<char>) -> Seq<char> {
    spec_trim_start(spec_trim_end(s))
}

fn is_ws(c: char) -> (r: bool)
    ensures
        r == spec_is_ws(c),
{
    c == ' ' || c == '\n' || c == '\t' || c == '\r'
}

/// Removes leading and trailing whitespace.
pub fn trim_whitespace(s: &str) -> (r: String)
    ensures
        r@ == spec_trim(s@),
{
    let n = s.unicode_len();
    proof {
        assert(s@.take(n as int) =~= s@);
    }
    let mut end = n;
    while end > 0 && is_ws(s.get_char(end - 1))
        invariant
            0 <= end <= n,
            n == s@.len(),
            spec_trim_end(s@) == spec_trim_end(s@.take(end as int)),
        decreases end,
    {
        proof {
            assert(s@.take(end as int).drop_last() =~= s@.take(end - 1));
        }
        end -= 1;
    }
    proof {
        assert(s@.take(n as int) =~= s@);
        assert(spec_trim_end(s@.take(end as int)) == s@.take(end as int));
    }
    let mut start: usize = 0;
    while start < end && is_ws(s.get_char(start))
        invariant
            0 <= start <= end <= n,
            n == s@.len(),
            spec_trim_end(s@) == s@.take(end as int),
            spec_trim_start(s@.take(end as int)) == spec_trim_start(
                s@.subrange(start as int, end as int),
            ),
        decreases end - start,
    {
        proof {
            assert(s@.subrange(start as int, end as int).drop_first() =~= s@.subrange(
                start + 1,
                end as int,
            ));
        }
        start += 1;
    }
    proof {
        assert(s@.take(end as int) =~= s@.subrange(0, end as int));
        assert(spec_trim_start(s@.subrange(start as int, end as int)) == s@.subrange(
            start as int,
            end as int,
        ));
    }
    String::from_str(s.substring_char(start, end))
}

/// Whether any hit after position `i` shares the URL of the hit at `i`.
fn url_repeated_later(rs: &Vec<SearchResult>, i: usize) -> (r: bool)
    requires
        i < rs.len(),
    ensures
        r == spec_superseded_later(rs.deep_view(), i as int),
{
    let ghost dv = rs.deep_view();
    let mut seen = false;
    let mut j: usize = i + 1;
    while j < rs.len()
        invariant
            i < j <= rs.len(),
            dv == rs.deep_view(),
            dv.len() == rs.len(),
            seen == exists|k: int| i < k < j && dv[k].url == dv[i as int].url,
        decreases rs.len() - j,
    {
        if str_eq(rs[j].url.as_str(), rs[i].url.as_str()) {
            seen = true;
        }
        proof {
            assert(dv[j as int] == rs[j as int]@);
            assert(dv[i as int] == rs[i as int]@);
        }
        j += 1;
    }
    seen
}

/// Appends the formatted block for one hit.
#[verifier::rlimit(50)]
fn append_source_entry(
    out: &mut String,
    r: &SearchResult,
    max_tokens_per_source: usize,
    include_raw_content: bool,
)
    requires
        max_tokens_per_source <= usize::MAX / 4,
    ensures
        final(out)@ == old(out)@ + spec_source_entry(
            r@,
            max_tokens_per_source as nat,
            include_raw_content,
        ),
{
    out.append("Source ");
    out.append(r.title.as_str());
    out.append(":\n===\n");
    out.append("URL: ");
    out.append(r.url.as_str());
    out.append("\n===\n");
    out.append("Most relevant content from source: ");
    out.append(r.content.as_str());
    out.append("\n===\n");
    if include_raw_content {
        match &r.raw_content {
            Some(raw) => {
                out.append("Full source content limited to ");
                let budget = u64_to_string(max_tokens_per_source as u64);
                out.append(budget.as_str());
                out.append(" tokens: ");
                let limit = max_tokens_per_source * 4;
                let raw_len = raw.as_str().unicode_len();
                if raw_len > limit {
                    out.append(raw.as_str().substring_char(0, limit));
                    out.append("... [truncated]");
                    proof {
                        assert(raw@.subrange(0, limit as int) =~= raw@.take(limit as int));
                    }
                } else {
                    out.append(raw.as_str());
                }
                out.append("\n\n");
            },
            None => {},
        }
    }
}

/// Formats the hits as a sources listing, keeping exactly one block per
/// URL — the last hit with that URL, at its position — optionally with its
/// raw content cut to a token budget, and trims surrounding whitespace.
pub fn deduplicate_and_format_sources(
    search_response: &SearchResponse,
    max_tokens_per_source: usize,
    include_raw_content: bool,
) -> (r: String)
    requires
        max_tokens_per_source <= usize::MAX / 4,
    ensures
        r@ == spec_trim(
            "Sources:\n\n"@ + spec_source_entries(
                search_response@,
                search_response@.len() as int,
                max_tokens_per_source as nat,
                include_raw_content,
            ),
        ),
{
    let rs = &search_response.results;
    let mut out = "Sources:\n\n".to_string();
    let mut i: usize = 0;
    while i < rs.len()
        invariant
            0 <= i <= rs.len(),
            rs.deep_view().len() == rs.len(),
            rs.deep_view() == search_response@,
            max_tokens_per_source <= usize::MAX / 4,
            out@ == "Sources:\n\n"@ + spec_source_entries(
                rs.deep_view(),
                i as int,
                max_tokens_per_source as nat,
                include_raw_content,
            ),
        decreases rs.len() - i,
    {
        let ghost dv = rs.deep_view();
        let seen = url_repeated_later(rs, i);
        if !seen {
            append_source_entry(&mut out, &rs[i], max_tokens_per_source, include_raw_content);
        }
        proof {
            let max = max_tokens_per_source as nat;
            assert(dv[i as int] == rs[i as int]@);
            if seen {
                assert(spec_source_entries(dv, i as int, max, include_raw_content) + Seq::<
                    char,
                >::empty() =~= spec_source_entries(dv, i as int, max, include_raw_content));
            }
            assert(out@ == "Sources:\n\n"@ + spec_source_entries(
                dv,
                i + 1,
                max,
                include_raw_content,
            ));
        }
        i += 1;
    }
    trim_whitespace(out.as_str())
}

/// The title of the `k`-th source of one search, 1-based, labeled with the
/// 1-based search number.
pub open spec fn spec_source_title(loop_index: nat, k: nat) -> Seq<char> {
    "Perplexity Search "@ + spec_dec_str(loop_index + 1) + ", Source "@ + spec_dec_str(k)
}

fn make_source_title(loop_index: usize, k: u64) -> (r: String)
    requires
        loop_index < usize::MAX,
    ensures
        r@ == spec_source_title(loop_index as nat, k as nat),
{
    let mut r = "Perplexity Search ".to_string();
    let search_number = u64_to_string((loop_index as u64) + 1);
    r.append(search_number.as_str());
    r.append(", Source ");
    let source_number = u64_to_string(k);
    r.append(source_number.as_str());
    r
}

/// Assembles the structured response of one web search from the provider's
/// plain answer: the first source carries the answer text itself, under the
/// first citation's address (or a fixed one when there is none), and each
/// further citation becomes a source of its own that points back to it.
pub fn build_search_response(content: String, citations: Vec<String>, loop_index: usize) -> (r:
    SearchResponse)
    requires
        loop_index < usize::MAX,
        citations@.len() < u64::MAX,
    ensures
        r@.len() == (if citations.deep_view().len() <= 1 {
            1int
        } else {
            citations.deep_view().len() as int
        }),
        r@[0].title == spec_source_title(loop_index as nat, 1),
        r@[0].content == content@,
        r@[0].raw_content == Some(content@),
        r@[0].url == (if citations.deep_view().len() > 0 {
            citations.deep_view()[0]
        } else {
            "https://perplexity.ai"@
        }),
        forall|k: int|
            1 <= k < r@.len() ==> {
                &&& (#[trigger] r@[k]).title == spec_source_title(loop_index as nat, (k + 1) as nat)
                &&& r@[k].url == citations.deep_view()[k]
                &&& r@[k].content == "See above for full content"@
                &&& r@[k].raw_content is None
            },
{
    let ghost cv = citations.deep_view();
    let first_url = if citations.len() > 0 {
        citations[0].clone()
    } else {
        "https://perplexity.ai".to_string()
    };
    let mut results: Vec<SearchResult> = Vec::new();
    let first = SearchResult {
        title: make_source_title(loop_index, 1),
        url: first_url,
        content: content.clone(),
        raw_content: Some(content),
    };
    proof {
        if citations@.len() > 0 {
            assert(cv[0] == citations@[0]@);
        }
    }
    results.push(first);
    let mut k: usize = 1;
    while k < citations.len()
        invariant
            1 <= k,
            k <= citations.len() || citations.len() == 0,
            citations.len() == 0 ==> k == 1,
            cv == citations.deep_view(),
            cv.len() == citations.len(),
            cv.len() < u64::MAX,
            loop_index < usize::MAX,
            results@.len() == k,
            results.deep_view()[0].title == spec_source_title(loop_index as nat, 1),
            results.deep_view()[0].content == first.content@,
            results.deep_view()[0].raw_content == first.raw_content.deep_view(),
            results.deep_view()[0].url == first.url@,
            forall|j: int|
                1 <= j < k ==> {
                    &&& (#[trigger] results.deep_view()[j]).title == spec_source_title(
                        loop_index as nat,
                        (j + 1) as nat,
                    )
                    &&& results.deep_view()[j].url == cv[j]
                    &&& results.deep_view()[j].content == "See above for full content"@
                    &&& results.deep_view()[j].raw_content is None
                },
        decreases citations.len() - k,
    {
        let next = SearchResult {
            title: make_source_title(loop_index, (k as u64) + 1),
            url: citations[k].clone(),
            content: "See above for full content".to_string(),
            raw_content: None,
        };
        proof {
            assert(cv[k as int] == citations@[k as int]@);
            assert(next@.title == spec_source_title(loop_index as nat, (k + 1) as nat));
            assert forall|j: int|
                1 <= j < k implies (#[trigger] results@[j]@).title == spec_source_title(
                loop_index as nat,
                (j + 1) as nat,
            ) && results@[j]@.url == cv[j] && results@[j]@.content
                == "See above for full content"@ && results@[j]@.raw_content is None by {
                assert(results.deep_view()[j] == results@[j]@);
            }
            assert(results.deep_view()[0] == results@[0]@);
        }
        results.push(next);
        proof {
            assert forall|j: int| 0 <= j < k + 1 implies #[trigger] results.deep_view()[j]
                == results@[j]@ by {
            }
            assert(results@[k as int] == next);
        }
        k += 1;
    }
    SearchResponse { results }
}

} // verus!
