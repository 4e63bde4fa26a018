//! The web-search capability: its declared schema, its results, and the
//! formatting of evidence for model consumption.
//!
//! Executing a search is the transport layer's job; this module fixes what
//! is declared to the backend and exactly how raw results are folded into
//! one evidence text. A failed search degrades to a placeholder result and
//! never aborts the turn.

use vstd::prelude::*;

verus! {

/// A declared tool, held as plain values (an OpenAI-compatible function
/// schema); the transport layer converts it to its wire shape.
pub struct ToolSpec {
    pub tool_type: String,
    pub name: String,
    pub description: String,
    pub parameters_json: String,
}

/// The single capability offered to debater turns: search the web for
/// evidence.
pub fn search_tool_definition() -> (r: ToolSpec)
    ensures
        r.tool_type@ == "function"@,
        r.name@ == "web_search"@,
        r.description@
            == "Search the web for factual evidence, statistics, news, or data to support your argument. Use specific, factual queries."@,
        r.parameters_json@
            == "{\"type\":\"object\",\"properties\":{\"query\":{\"type\":\"string\",\"description\":\"Search query - be specific and factual, e.g. 'AI job displacement statistics 2025'\"}},\"required\":[\"query\"]}"@,
{
    ToolSpec {
        tool_type: String::from_str("function"),
        name: String::from_str("web_search"),
        description: String::from_str(
            "Search the web for factual evidence, statistics, news, or data to support your argument. Use specific, factual queries.",
        ),
        parameters_json: String::from_str(
            "{\"type\":\"object\",\"properties\":{\"query\":{\"type\":\"string\",\"description\":\"Search query - be specific and factual, e.g. 'AI job displacement statistics 2025'\"}},\"required\":[\"query\"]}",
        ),
    }
}

/// The outcome of one web search: the query and the formatted evidence text.
/// Ephemeral — surfaced as an event and optionally folded into a follow-up
/// prompt, never persisted on its own.
pub struct SearchResult {
    pub query: String,
    pub results: String,
}

/// One raw search hit, already reduced to plain values.
pub struct SearchItem {
    pub title: String,
    pub content: String,
    pub url: String,
}

/// The placeholder evidence text when a search call fails.
pub fn failed_search_placeholder() -> (r: String)
    ensures
        r@ == "Search failed."@,
{
    String::from_str("Search failed.")
}

/// At most the first 300 characters of a hit's content.
pub open spec fn clip300(s: Seq<char>) -> Seq<char> {
    if s.len() <= 300 {
        s
    } else {
        s.take(300)
    }
}

/// The evidence block of one hit.
pub open spec fn spec_item_block(it: SearchItem) -> Seq<char> {
    "Source: "@ + it.title@ + "\n"@ + clip300(it.content@) + "\nURL: "@ + it.url@ + "\n"@
}

/// The direct-answer block, when the provider returned one.
pub open spec fn spec_answer_block(a: Seq<char>) -> Seq<char> {
    "Direct Answer: "@ + a + "\n"@
}

/// Hit blocks joined by single newlines, oldest-ranked first.
pub open spec fn spec_items_joined(items: Seq<SearchItem>) -> Seq<char>
    decreases items.len(),
{
    if items.len() == 0 {
        Seq::empty()
    } else if items.len() == 1 {
        spec_item_block(items[0])
    } else {
        spec_items_joined(items.drop_last()) + "\n"@ + spec_item_block(items.last())
    }
}

/// The full evidence text: the direct answer first if present and non-empty,
/// then the hits, all joined by newlines; a fixed notice when there is
/// nothing at all.
pub open spec fn spec_search_text(answer: Option<Seq<char>>, items: Seq<SearchItem>) -> Seq<char> {
    let has_answer = match answer {
        Some(a) => a.len() > 0,
        None => false,
    };
    if !has_answer && items.len() == 0 {
        "No relevant results found."@
    } else if has_answer && items.len() == 0 {
        spec_answer_block(answer->0)
    } else if !has_answer {
        spec_items_joined(items)
    } else {
        spec_answer_block(answer->0) + "\n"@ + spec_items_joined(items)
    }
}

fn append_item_block(out: &mut String, it: &SearchItem)
    ensures
        final(out)@ == old(out)@ + spec_item_block(*it),
{
    out.append("Source: ");
    out.append(it.title.as_str());
    out.append("\n");
    let n = it.content.as_str().unicode_len();
    if n <= 300 {
        out.append(it.content.as_str());
    } else {
        let cut = it.content.as_str().substring_char(0, 300);
        out.append(cut);
    }
    out.append("\nURL: ");
    out.append(it.url.as_str());
    out.append("\n");
    proof {
        assert(out@ =~= old(out)@ + spec_item_block(*it));
    }
}

/// Format raw search output as one evidence text for model consumption.
pub fn format_search_results(answer: Option<&String>, items: &Vec<SearchItem>) -> (r: String)
    ensures
        r@ == spec_search_text(
            match answer {
                Some(a) => Some(a@),
                None => None,
            },
            items@,
        ),
{
    let has_answer = match answer {
        Some(a) => a.as_str().unicode_len() > 0,
        None => false,
    };
    let m = items.len();
    if !has_answer && m == 0 {
        return String::from_str("No relevant results found.");
    }
    let mut out = String::new();
    if has_answer {
        out.append("Direct Answer: ");
        match answer {
            Some(a) => out.append(a.as_str()),
            None => (),
        }
        out.append("\n");
    }
    if m == 0 {
        return out;
    }
    if has_answer {
        out.append("\n");
    }
    let ghost base = out@;
    let mut i: usize = 0;
    while i < m
        invariant
            i <= m,
            m == items@.len(),
            m > 0,
            base == if has_answer {
                spec_answer_block(match answer {
                    Some(a) => a@,
                    None => Seq::empty(),
                }) + "\n"@
            } else {
                Seq::<char>::empty()
            },
            out@ == if i == 0 {
                base
            } else if i < m {
                base + spec_items_joined(items@.take(i as int)) + "\n"@
            } else {
                base + spec_items_joined(items@.take(i as int))
            },
        decreases m - i,
    {
        append_item_block(&mut out, &items[i]);
        proof {
            assert(items@.take(i + 1).drop_last() =~= items@.take(i as int));
            assert(items@.take(i + 1).last() == items@[i as int]);
            if i == 0 {
                assert(spec_items_joined(items@.take(1)) == spec_item_block(items@[0]));
            }
        }
        if i + 1 < m {
            out.append("\n");
        }
        proof {
            if i + 1 < m {
                assert(out@ =~= base + spec_items_joined(items@.take(i + 1)) + "\n"@);
            } else {
                assert(out@ =~= base + spec_items_joined(items@.take(i + 1)));
            }
        }
        i = i + 1;
    }
    proof {
        assert(items@.take(m as int) =~= items@);
    }
    out
}

} // verus!
