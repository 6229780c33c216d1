//! What a search of the web promises its callers, in terms of what goes into an operation and
//! what comes out of it.

use crate::protocol::FunctionCallError;
use crate::text::{
    decimal, decimal_text, joined, lines_of, normalize_whitespace, parse_usize, texts, to_lower,
    trim, trimmed, truncate_text,
};
use crate::web_search::{
    all_result_lines, finish_search, format_search_results, format_tavily_error,
    parse_tavily_default_search_limit,
    parse_tavily_search_depth, plan_search, prefixed, result_body, result_lines, search_call,
    search_call_to, search_item, shown_images, tavily_error_text, validate_domain_count,
    ClientWebConfig, SearchCall, SearchEvent, SearchPlan, SearchReply, SearchStage, TavilyImage,
    TavilySearchResponse, TavilySearchResult, WebSearchAction, WebSearchArgs, WebSearchItem,
};
use crate::web_url::{status_line, url_parsed, ParsedUrl};
use vstd::math::min;
use vstd::prelude::*;

verus! {

// ---------------------------------------------------------------------------
// Configuration
// ---------------------------------------------------------------------------

/// A depth that is known is taken, whatever its case and the white space round it, and
/// anything else stands for the advanced one.
pub proof fn lemma_search_depth(
    raw: &str,
    plain: &str,
    trimmed_raw: String,
    lower: String,
    result: String,
    unset: String,
)
    requires
        call_ensures(parse_tavily_search_depth, (Some(raw),), result),
        call_ensures(parse_tavily_search_depth, (None,), unset),
        call_ensures(trim, (raw,), trimmed_raw),
        plain@ == trimmed_raw@,
        call_ensures(to_lower, (plain,), lower),
    ensures
        unset@ == "advanced"@,
        result@ == if lower@ == "advanced"@ || lower@ == "basic"@ || lower@ == "fast"@ || lower@
            == "ultra-fast"@ {
            lower@
        } else {
            "advanced"@
        },
{
}

/// A positive number of results is taken, up to twenty, and anything else stands for five.
pub proof fn lemma_default_search_limit(
    raw: &str,
    plain: &str,
    trimmed_raw: String,
    read: Option<usize>,
    result: usize,
    unset: usize,
)
    requires
        call_ensures(parse_tavily_default_search_limit, (Some(raw),), result),
        call_ensures(parse_tavily_default_search_limit, (None,), unset),
        call_ensures(trim, (raw,), trimmed_raw),
        plain@ == trimmed_raw@,
        call_ensures(parse_usize, (plain,), read),
    ensures
        unset == 5,
        result == if read is Some && read->Some_0 > 0 {
            min(20, read->Some_0 as int)
        } else {
            5
        },
{
}

/// A key counts where it is not blank, without the white space at its ends; the search goes to
/// the address of the service, at the depth and with the limit that are set.
pub proof fn lemma_search_is_configured(
    key: Option<&str>,
    depth: Option<&str>,
    limit: Option<&str>,
    parsed_depth: String,
    parsed_limit: usize,
    result: ClientWebConfig,
)
    requires
        call_ensures(ClientWebConfig::from_env, (key, depth, limit), result),
        call_ensures(parse_tavily_search_depth, (depth,), parsed_depth),
        call_ensures(parse_tavily_default_search_limit, (limit,), parsed_limit),
    ensures
        result.tavily_api_key is Some <==> key is Some && trimmed(key->Some_0@).len() > 0,
        result.tavily_api_key is Some ==> result.tavily_api_key->Some_0@ == trimmed(key->Some_0@),
        result.tavily_search_url@ == "https://api.tavily.com/search"@,
        result.tavily_search_depth@ == parsed_depth@,
        result.default_search_limit == parsed_limit,
{
}

// ---------------------------------------------------------------------------
// The request
// ---------------------------------------------------------------------------

/// A list of domains is refused exactly where it is longer than allowed.
pub proof fn lemma_domains_are_counted(
    name: &str,
    domains: Option<Vec<String>>,
    max: usize,
    result: Result<(), FunctionCallError>,
)
    requires
        call_ensures(validate_domain_count, (name, &domains, max), result),
    ensures
        result is Err <==> domains is Some && domains->Some_0@.len() > max,
        result is Err ==> (result->Err_0 matches FunctionCallError::RespondToModel(message)
            && message@ == name@ + " supports at most "@ + decimal(max as nat) + " domains"@),
{
}

/// A search is refused where it asks nothing, for no results, or with more than three hundred
/// domains to search or more than one hundred and fifty to leave out; in this order, and
/// nowhere else. It asks its query without the white space at its ends, for as many results as
/// it says, or as are configured, and never more than twenty.
pub proof fn lemma_search_asks_its_query(
    call_id: &str,
    args: WebSearchArgs,
    config: ClientWebConfig,
    planned: Result<SearchPlan, FunctionCallError>,
    started: SearchStage,
)
    requires
        call_ensures(plan_search, (&args, &config), planned),
        call_ensures(SearchStage::start, (call_id, args, &config), started),
    ensures
        ({
            let query = trimmed(args.query@);
            let asked = min(
                20,
                if args.limit is Some {
                    args.limit->Some_0 as int
                } else {
                    config.default_search_limit as int
                },
            );
            let searched = args.include_domains is Some && args.include_domains->Some_0@.len()
                > 300;
            let left_out = args.exclude_domains is Some && args.exclude_domains->Some_0@.len()
                > 150;
            &&& planned is Ok <==> query.len() > 0 && asked > 0 && !searched && !left_out
            &&& planned matches Ok(plan) ==> plan.query@ == query && plan.limit == asked
            &&& planned is Err ==> (planned->Err_0 matches FunctionCallError::RespondToModel(
                message,
            ) && message@ == if query.len() == 0 {
                "query must not be empty"@
            } else if asked == 0 {
                "limit must be greater than zero"@
            } else if searched {
                "include_domains"@ + " supports at most "@ + decimal(300) + " domains"@
            } else {
                "exclude_domains"@ + " supports at most "@ + decimal(150) + " domains"@
            })
            &&& started is Refused <==> planned is Err
            &&& started matches SearchStage::Refused {
                error: FunctionCallError::RespondToModel(message),
            } ==> (planned->Err_0 matches FunctionCallError::RespondToModel(said) && message@
                == said@)
            &&& planned is Ok ==> (started matches SearchStage::Announce { item, plan, args: kept }
                && {
                &&& kept == args
                &&& plan.query@ == query
                &&& plan.limit == asked
                &&& item.id@ == call_id@
                &&& item.query@ == query
                &&& item.action matches WebSearchAction::Search { query: said } && said@ == query
            })
        }),
{
}

/// The announcement of a search names the call and the query.
pub proof fn lemma_search_is_announced(call_id: &str, plan: SearchPlan, result: WebSearchItem)
    requires
        call_ensures(search_item, (call_id, &plan), result),
    ensures
        result.id@ == call_id@,
        result.query@ == plan.query@,
        result.action matches WebSearchAction::Search { query } && query@ == plan.query@,
{
}

/// What is asked of the service is what the call asks: the query and the limit of the plan, at
/// the configured depth, with the filters of the call as they are. A search without a key, or
/// to no address, is not sent.
pub proof fn lemma_service_is_asked_what_the_call_asks(
    config: ClientWebConfig,
    plan: SearchPlan,
    args: WebSearchArgs,
    parsed: Result<ParsedUrl, String>,
    result: Result<SearchCall, FunctionCallError>,
)
    requires
        call_ensures(search_call_to, (&config, &plan, args, parsed), result),
    ensures
        result is Ok <==> config.tavily_api_key is Some && parsed is Ok,
        result matches Ok(call) ==> {
            &&& call.url == parsed->Ok_0
            &&& call.api_key@ == config.tavily_api_key->Some_0@
            &&& call.request.query@ == plan.query@
            &&& call.request.max_results == plan.limit
            &&& call.request.search_depth@ == config.tavily_search_depth@
            &&& call.request.chunks_per_source == if config.tavily_search_depth@ == "advanced"@ {
                Some(3usize)
            } else {
                None
            }
            &&& call.request.include_raw_content@ == "markdown"@
            &&& call.request.include_images && call.request.include_usage
            &&& call.request.time_range == args.time_range
            &&& call.request.start_date == args.start_date
            &&& call.request.end_date == args.end_date
            &&& call.request.topic == args.topic
            &&& call.request.include_domains == args.include_domains
            &&& call.request.exclude_domains == args.exclude_domains
            &&& call.request.exact_match == args.exact_match
        },
        result is Err ==> (result->Err_0 matches FunctionCallError::RespondToModel(message)
            && message@ == if config.tavily_api_key is None {
            "web_search is not configured; set "@ + "TAVILY_API_KEY"@ + " to use Tavily search"@
        } else {
            "configured Tavily search URL is not valid: "@ + parsed->Err_0@
        }),
{
}

/// The request goes to the configured address.
pub proof fn lemma_service_is_asked_at_its_address(
    config: ClientWebConfig,
    plan: SearchPlan,
    args: WebSearchArgs,
    parsed: Result<ParsedUrl, String>,
    given: Result<SearchCall, FunctionCallError>,
    result: Result<SearchCall, FunctionCallError>,
)
    requires
        call_ensures(search_call, (&config, &plan, args), result),
        call_ensures(search_call_to, (&config, &plan, args, parsed), given),
        parsed matches Ok(url) ==> url_parsed(config.tavily_search_url@) == Ok::<
            (Seq<char>, Seq<char>, Seq<char>),
            Seq<char>,
        >((url.text@, url.scheme@, url.path@)),
        parsed matches Err(error) ==> url_parsed(config.tavily_search_url@) == Err::<
            (Seq<char>, Seq<char>, Seq<char>),
            Seq<char>,
        >(error@),
    ensures
        result is Ok <==> given is Ok,
        result is Ok ==> {
            let (call, expected) = (result->Ok_0, given->Ok_0);
            &&& call.url.text@ == expected.url.text@
            &&& call.url.scheme@ == expected.url.scheme@
            &&& call.url.path@ == expected.url.path@
            &&& call.api_key@ == expected.api_key@
            &&& call.request.query@ == expected.request.query@
            &&& call.request.max_results == expected.request.max_results
            &&& call.request.search_depth@ == expected.request.search_depth@
            &&& call.request.chunks_per_source == expected.request.chunks_per_source
            &&& call.request.include_raw_content@ == expected.request.include_raw_content@
            &&& call.request.include_images == expected.request.include_images
            &&& call.request.include_usage == expected.request.include_usage
            &&& call.request.time_range == expected.request.time_range
            &&& call.request.start_date == expected.request.start_date
            &&& call.request.end_date == expected.request.end_date
            &&& call.request.topic == expected.request.topic
            &&& call.request.include_domains == expected.request.include_domains
            &&& call.request.exclude_domains == expected.request.exclude_domains
            &&& call.request.exact_match == expected.request.exact_match
        },
        result is Err ==> (result->Err_0 matches FunctionCallError::RespondToModel(message) && (
        given->Err_0 matches FunctionCallError::RespondToModel(said) && message@ == said@)),
{
}

// ---------------------------------------------------------------------------
// The answer
// ---------------------------------------------------------------------------

/// The body of a result is its raw content, where that is not blank, and else its content with
/// the white space normalized, where that is not blank; either is cut to two thousand bytes.
pub proof fn lemma_body_of_a_result(
    result: TavilySearchResult,
    raw: &str,
    content: &str,
    trimmed_raw: String,
    normal: String,
    raw_text: &str,
    content_text: &str,
    cut_raw: String,
    cut_content: String,
    body: Option<String>,
)
    requires
        call_ensures(result_body, (&result,), body),
        result.raw_content is Some ==> raw@ == result.raw_content->Some_0@,
        result.content is Some ==> content@ == result.content->Some_0@,
        call_ensures(trim, (raw,), trimmed_raw),
        call_ensures(normalize_whitespace, (content,), normal),
        raw_text@ == trimmed_raw@,
        content_text@ == normal@,
        call_ensures(truncate_text, (raw_text, 2_000usize), cut_raw),
        call_ensures(truncate_text, (content_text, 2_000usize), cut_content),
    ensures
        ({
            let has_raw = result.raw_content is Some && trimmed_raw@.len() > 0;
            let has_content = result.content is Some && normal@.len() > 0;
            &&& body is Some <==> has_raw || has_content
            &&& has_raw ==> body->Some_0@ == cut_raw@
            &&& !has_raw && has_content ==> body->Some_0@ == cut_content@
        }),
{
}

/// Some lines, each behind a line break.
pub open spec fn on_new_lines(lines: Seq<Seq<char>>) -> Seq<char>
    decreases lines.len(),
{
    if lines.len() == 0 {
        Seq::empty()
    } else {
        on_new_lines(lines.drop_last()) + seq!['\n'] + lines.last()
    }
}

/// How a result is laid out: its number and title, its address, score and date as far as it
/// has them, its body with each line set in, and its images, three at most of those that are
/// not blank.
pub open spec fn laid_out(
    result: TavilySearchResult,
    number: Seq<char>,
    body: Option<Seq<char>>,
) -> Seq<char> {
    let title = if result.title is Some {
        result.title->Some_0@
    } else {
        "Untitled"@
    };
    let address = if result.url is Some && result.url->Some_0@.len() > 0 {
        "\n   URL: "@ + result.url->Some_0@
    } else {
        Seq::empty()
    };
    let score = if result.score is Some {
        "\n   Score: "@ + result.score->Some_0@
    } else {
        Seq::empty()
    };
    let date = if result.published_date is Some && trimmed(result.published_date->Some_0@).len()
        > 0 {
        "\n   Published: "@ + trimmed(result.published_date->Some_0@)
    } else {
        Seq::empty()
    };
    let text = if body is Some {
        "\n   Body:"@ + on_new_lines(lines_of(body->Some_0).map_values(|l: Seq<char>| "   "@ + l))
    } else {
        Seq::empty()
    };
    let addresses = result.images@.map_values(
        |image: TavilyImage|
            trimmed(
                match image {
                    TavilyImage::Url(url) => url@,
                    TavilyImage::Obj { url } => url@,
                },
            ),
    ).filter(|url: Seq<char>| url.len() > 0);
    let shown = addresses.take(min(3, addresses.len() as int));
    let images = if shown.len() > 0 {
        "\n   Images:"@ + on_new_lines(shown.map_values(|url: Seq<char>| "   - "@ + url))
    } else {
        Seq::empty()
    };
    "\n"@ + number + ". "@ + title + address + score + date + text + images
}

/// Some texts, one behind the other.
pub open spec fn one_behind_the_other(parts: Seq<Seq<char>>) -> Seq<char>
    decreases parts.len(),
{
    if parts.len() == 0 {
        Seq::empty()
    } else {
        one_behind_the_other(parts.drop_last()) + parts.last()
    }
}

proof fn lemma_new_lines_parts(a: Seq<Seq<char>>, b: Seq<Seq<char>>)
    ensures
        on_new_lines(a + b) == on_new_lines(a) + on_new_lines(b),
    decreases b.len(),
{
    if b.len() == 0 {
        assert(a + b =~= a);
        assert(on_new_lines(a) + on_new_lines(b) =~= on_new_lines(a));
    } else {
        assert((a + b).drop_last() =~= a + b.drop_last());
        lemma_new_lines_parts(a, b.drop_last());
        assert(on_new_lines(a) + on_new_lines(b.drop_last()) + seq!['\n'] + b.last()
            =~= on_new_lines(a) + (on_new_lines(b.drop_last()) + seq!['\n'] + b.last()));
    }
}

proof fn lemma_joined_lines(head: Seq<char>, lines: Seq<Seq<char>>)
    ensures
        joined(seq![head] + lines, "\n"@) == head + on_new_lines(lines),
    decreases lines.len(),
{
    reveal_strlit("\n");
    assert("\n"@ =~= seq!['\n']);
    let all = seq![head] + lines;
    if lines.len() == 0 {
        assert(all =~= seq![head]);
        assert(head + on_new_lines(lines) =~= head);
    } else {
        assert(all.drop_last() =~= seq![head] + lines.drop_last());
        lemma_joined_lines(head, lines.drop_last());
        assert(head + on_new_lines(lines.drop_last()) + seq!['\n'] + lines.last() =~= head + (
        on_new_lines(lines.drop_last()) + seq!['\n'] + lines.last()));
    }
}

proof fn lemma_one_line(line: Seq<char>)
    ensures
        on_new_lines(seq![line]) == seq!['\n'] + line,
{
    assert(seq![line].drop_last() =~= Seq::<Seq<char>>::empty());
    assert(on_new_lines(seq![line].drop_last()) =~= Seq::<char>::empty());
    assert(Seq::<char>::empty() + seq!['\n'] + line =~= seq!['\n'] + line);
}

/// The images that are shown of a result.
proof fn lemma_shown_images(
    images: Seq<TavilyImage>,
    address: spec_fn(TavilyImage) -> Seq<char>,
    visible: spec_fn(Seq<char>) -> bool,
)
    requires
        forall|image: TavilyImage| #[trigger]
            address(image) == trimmed(
                match image {
                    TavilyImage::Url(url) => url@,
                    TavilyImage::Obj { url } => url@,
                },
            ),
        forall|url: Seq<char>| #[trigger] visible(url) == (url.len() > 0),
    ensures
        ({
            let addresses = images.map_values(address).filter(visible);
            shown_images(images) == addresses.take(min(3, addresses.len() as int))
        }),
    decreases images.len(),
{
    reveal(Seq::filter);
    let all = images.map_values(address);
    let addresses = all.filter(visible);
    if images.len() == 0 {
        assert(addresses.take(min(3, addresses.len() as int)) =~= Seq::<Seq<char>>::empty());
    } else {
        let front = images.drop_last();
        lemma_shown_images(front, address, visible);
        assert(all.drop_last() =~= front.map_values(address));
        let url = address(images.last());
        assert(all.last() == url);
        assert(visible(url) == (url.len() > 0));
        let before = front.map_values(address).filter(visible);
        if url.len() > 0 {
            assert(addresses == before.push(url));
            if before.len() < 3 {
                assert(before.take(before.len() as int) =~= before);
                assert(addresses.take(addresses.len() as int) =~= addresses);
            } else {
                assert(addresses.take(3) =~= before.take(3));
            }
        }
    }
}

proof fn lemma_laid_out(result: TavilySearchResult, index: nat)
    ensures
        on_new_lines(result_lines(result, index)) == laid_out(
            result,
            decimal(index + 1),
            crate::web_search::body_of(result),
        ),
{
    reveal_strlit("\n");
    reveal_strlit("   URL: ");
    reveal_strlit("\n   URL: ");
    reveal_strlit("   Score: ");
    reveal_strlit("\n   Score: ");
    reveal_strlit("   Published: ");
    reveal_strlit("\n   Published: ");
    reveal_strlit("   Body:");
    reveal_strlit("\n   Body:");
    reveal_strlit("   Images:");
    reveal_strlit("\n   Images:");
    assert("\n"@ =~= seq!['\n']);
    assert("\n   URL: "@ =~= seq!['\n'] + "   URL: "@);
    assert("\n   Score: "@ =~= seq!['\n'] + "   Score: "@);
    assert("\n   Published: "@ =~= seq!['\n'] + "   Published: "@);
    assert("\n   Body:"@ =~= seq!['\n'] + "   Body:"@);
    assert("\n   Images:"@ =~= seq!['\n'] + "   Images:"@);
    let none = Seq::<Seq<char>>::empty();
    assert(on_new_lines(none) =~= Seq::<char>::empty());
    assert(trimmed(Seq::<char>::empty()).len() == 0);
    let title = if result.title is Some {
        result.title->Some_0@
    } else {
        "Untitled"@
    };
    let number = decimal(index + 1);
    let first = number + ". "@ + title;
    let url = crate::web_search::text_or(result.url, Seq::empty());
    let score_text = crate::web_search::text_or(result.score, Seq::empty());
    let day = trimmed(crate::web_search::text_or(result.published_date, Seq::empty()));
    let l1 = seq![first];
    let l2 = crate::web_search::line_if(url.len() > 0, "   URL: "@ + url);
    let l3 = crate::web_search::line_if(result.score is Some, "   Score: "@ + score_text);
    let l4 = crate::web_search::line_if(day.len() > 0, "   Published: "@ + day);
    let body = crate::web_search::body_of(result);
    let l5 = crate::web_search::result_body_lines(result);
    let l6 = crate::web_search::result_image_lines(result);
    let head = l1 + l2 + l3 + l4;
    assert(result_lines(result, index) == head + l5 + l6);
    lemma_new_lines_parts(head + l5, l6);
    lemma_new_lines_parts(head, l5);
    lemma_new_lines_parts(l1 + l2 + l3, l4);
    lemma_new_lines_parts(l1 + l2, l3);
    lemma_new_lines_parts(l1, l2);
    lemma_one_line(first);
    lemma_one_line("   URL: "@ + url);
    lemma_one_line("   Score: "@ + score_text);
    lemma_one_line("   Published: "@ + day);
    lemma_one_line("   Body:"@);
    lemma_one_line("   Images:"@);
    let t1 = "\n"@ + number + ". "@ + title;
    assert(on_new_lines(l1) =~= t1);
    let t2 = if url.len() > 0 {
        "\n   URL: "@ + url
    } else {
        Seq::empty()
    };
    assert(on_new_lines(l2) =~= t2);
    let t3 = if result.score is Some {
        "\n   Score: "@ + score_text
    } else {
        Seq::empty()
    };
    assert(on_new_lines(l3) =~= t3);
    let t4 = if day.len() > 0 {
        "\n   Published: "@ + day
    } else {
        Seq::empty()
    };
    assert(on_new_lines(l4) =~= t4);
    let set_in = |l: Seq<char>| "   "@ + l;
    let t5 = if body is Some {
        "\n   Body:"@ + on_new_lines(lines_of(body->Some_0).map_values(set_in))
    } else {
        Seq::empty()
    };
    if body is Some {
        let lines = lines_of(body->Some_0);
        assert(prefixed("   "@, lines) =~= lines.map_values(set_in));
        lemma_new_lines_parts(seq!["   Body:"@], prefixed("   "@, lines));
    }
    assert(on_new_lines(l5) =~= t5);
    let address = |image: TavilyImage|
        trimmed(
            match image {
                TavilyImage::Url(url) => url@,
                TavilyImage::Obj { url } => url@,
            },
        );
    let visible = |url: Seq<char>| url.len() > 0;
    lemma_shown_images(result.images@, address, visible);
    let addresses = result.images@.map_values(address).filter(visible);
    let shown = addresses.take(min(3, addresses.len() as int));
    let item = |url: Seq<char>| "   - "@ + url;
    let t6 = if shown.len() > 0 {
        "\n   Images:"@ + on_new_lines(shown.map_values(item))
    } else {
        Seq::empty()
    };
    if shown.len() > 0 {
        assert(prefixed("   - "@, shown) =~= shown.map_values(item));
        lemma_new_lines_parts(seq!["   Images:"@], prefixed("   - "@, shown));
    }
    assert(on_new_lines(l6) =~= t6);
    assert(on_new_lines(result_lines(result, index)) == t1 + t2 + t3 + t4 + t5 + t6);
}

proof fn lemma_all_laid_out(
    results: Seq<TavilySearchResult>,
    n: nat,
    parts: Seq<Seq<char>>,
)
    requires
        n <= results.len(),
        parts.len() == n,
        forall|i: int|
            0 <= i < n ==> #[trigger] parts[i] == laid_out(
                results[i],
                decimal((i + 1) as nat),
                crate::web_search::body_of(results[i]),
            ),
    ensures
        on_new_lines(all_result_lines(results, n)) == one_behind_the_other(parts),
    decreases n,
{
    if n > 0 {
        let m = (n - 1) as nat;
        let front = parts.drop_last();
        assert forall|i: int| 0 <= i < m implies #[trigger] front[i] == laid_out(
            results[i],
            decimal((i + 1) as nat),
            crate::web_search::body_of(results[i]),
        ) by {
            assert(front[i] == parts[i]);
        }
        lemma_all_laid_out(results, m, front);
        lemma_new_lines_parts(all_result_lines(results, m), result_lines(results[n - 1], m));
        lemma_laid_out(results[n - 1], m);
        assert(parts[n - 1] == parts.last());
    } else {
        assert(on_new_lines(all_result_lines(results, n)) =~= one_behind_the_other(parts));
    }
}

/// The results are shown in their order, from the first on, up to the limit and under their
/// number; each as it is laid out, and all of it cut to twenty thousand bytes. Without results
/// the model is told so.
pub proof fn lemma_results_are_shown_in_order(
    response: TavilySearchResponse,
    limit: usize,
    bodies: Seq<Option<String>>,
    parts: Seq<Seq<char>>,
    full: &str,
    cut: String,
    result: String,
)
    requires
        call_ensures(format_search_results, (&response, limit), result),
        parts.len() == min(response.results@.len() as int, limit as int),
        bodies.len() == parts.len(),
        forall|i: int|
            #![trigger parts[i]]
            0 <= i < parts.len() ==> call_ensures(
                result_body,
                (&response.results@[i],),
                bodies[i],
            ) && parts[i] == laid_out(
                response.results@[i],
                decimal((i + 1) as nat),
                if bodies[i] is Some {
                    Some(bodies[i]->Some_0@)
                } else {
                    None
                },
            ),
        full@ == "Search results ("@ + decimal(parts.len()) + " shown):"@ + one_behind_the_other(
            parts,
        ),
        call_ensures(truncate_text, (full, 20_000usize), cut),
    ensures
        response.results@.len() == 0 ==> result@ == "No results."@,
        response.results@.len() > 0 ==> result@ == cut@,
{
    assert forall|i: int| 0 <= i < parts.len() implies #[trigger] parts[i] == laid_out(
        response.results@[i],
        decimal((i + 1) as nat),
        crate::web_search::body_of(response.results@[i]),
    ) by {
        let body = if bodies[i] is Some {
            Some(bodies[i]->Some_0@)
        } else {
            None
        };
        assert(parts[i] == laid_out(response.results@[i], decimal((i + 1) as nat), body));
        assert(body == crate::web_search::body_of(response.results@[i]));
    }
    lemma_all_laid_out(response.results@, parts.len(), parts);
    lemma_joined_lines(
        "Search results ("@ + decimal(parts.len()) + " shown):"@,
        all_result_lines(response.results@, parts.len()),
    );
}

/// What the model is told where the service refuses: what the status stands for, where it
/// came from and what was said, cut to twenty thousand bytes.
pub proof fn lemma_refusal_of_the_service(
    status: u16,
    written_status: &str,
    url: &str,
    body: &str,
    cut: String,
    result: String,
)
    requires
        call_ensures(tavily_error_text, (status, written_status, url, body), result),
        call_ensures(truncate_text, (body, 20_000usize), cut),
    ensures
        ({
            let stands_for = match status {
                400 => "invalid Tavily request"@,
                401 => "Tavily authentication failed; check TAVILY_API_KEY"@,
                429 => "Tavily rate limit exceeded"@,
                432 => "Tavily plan or API key quota exceeded"@,
                433 => "Tavily pay-as-you-go limit exceeded"@,
                _ => if status / 100 == 5 {
                    "Tavily server error"@
                } else {
                    "Tavily request failed"@
                },
            };
            result@ == "web_search "@ + stands_for + " for "@ + url@ + " with status "@
                + written_status@ + ": "@ + cut@
        }),
{
}

/// A search is answered with the results that came, or with what went wrong.
pub proof fn lemma_search_is_answered(
    url: ParsedUrl,
    plan: SearchPlan,
    reply: SearchReply,
    address: &str,
    said: &str,
    written_status: &str,
    shown: String,
    refused: String,
    result: Result<String, FunctionCallError>,
)
    requires
        call_ensures(finish_search, (&url, &plan, reply), result),
        address@ == url.text@,
        reply matches SearchReply::Results(response) ==> call_ensures(
            format_search_results,
            (&response, plan.limit),
            shown,
        ),
        reply matches SearchReply::Refused { status, body } ==> said@ == body@ && written_status@
            == status_line(status) && call_ensures(
            tavily_error_text,
            (status, written_status, address, said),
            refused,
        ),
    ensures
        result is Ok <==> reply is Results,
        result is Ok ==> result->Ok_0@ == shown@,
        result is Err ==> (result->Err_0 matches FunctionCallError::RespondToModel(message)
            && message@ == match reply {
            SearchReply::RequestFailed(error) => "web_search request failed: "@ + error@,
            SearchReply::NotJson(error) => "web_search response was not JSON: "@ + error@,
            _ => refused@,
        }),
{
}

/// A search that was announced is sent, or ends with why it cannot be; what comes back ends it,
/// and the end of the same item is announced.
pub proof fn lemma_announced_search_runs_to_its_end(
    item: WebSearchItem,
    plan: SearchPlan,
    args: WebSearchArgs,
    config: ClientWebConfig,
    call: SearchCall,
    reply: SearchReply,
    called: Result<SearchCall, FunctionCallError>,
    answered: Result<String, FunctionCallError>,
    sent: SearchStage,
    finished: SearchStage,
)
    requires
        call_ensures(
            SearchStage::next,
            (SearchStage::Announce { item, plan, args }, SearchEvent::Announced, &config),
            sent,
        ),
        call_ensures(search_call, (&config, &plan, args), called),
        call_ensures(
            SearchStage::next,
            (SearchStage::Send { item, plan, call }, SearchEvent::Replied(reply), &config),
            finished,
        ),
        call_ensures(finish_search, (&call.url, &plan, reply), answered),
    ensures
        called is Ok ==> (sent matches SearchStage::Send { item: same, plan: kept, call: made } && {
            &&& same == item
            &&& kept == plan
            &&& made.api_key@ == called->Ok_0.api_key@
            &&& made.url.text@ == called->Ok_0.url.text@
            &&& made.request.query@ == called->Ok_0.request.query@
            &&& made.request.max_results == called->Ok_0.request.max_results
            &&& made.request.search_depth@ == called->Ok_0.request.search_depth@
            &&& made.request.chunks_per_source == called->Ok_0.request.chunks_per_source
            &&& made.request.time_range == args.time_range
            &&& made.request.start_date == args.start_date
            &&& made.request.end_date == args.end_date
            &&& made.request.topic == args.topic
            &&& made.request.include_domains == args.include_domains
            &&& made.request.exclude_domains == args.exclude_domains
            &&& made.request.exact_match == args.exact_match
        }),
        called is Err ==> (sent matches SearchStage::Finish { item: same, answer } && same == item
            && (answer matches Err(FunctionCallError::RespondToModel(message)) && (
        called->Err_0 matches FunctionCallError::RespondToModel(why) && message@ == why@))),
        finished matches SearchStage::Finish { item: same, answer } && {
            &&& same == item
            &&& answer is Ok <==> answered is Ok
            &&& answered is Ok ==> answer->Ok_0@ == answered->Ok_0@
            &&& answer matches Err(FunctionCallError::RespondToModel(message)) ==> (
            answered->Err_0 matches FunctionCallError::RespondToModel(why) && message@ == why@)
        },
{
}

/// A search that was refused or is finished stays so, and an event that a stage does not wait
/// for changes nothing.
pub proof fn lemma_finished_search_stays(
    stage: SearchStage,
    event: SearchEvent,
    config: ClientWebConfig,
    result: SearchStage,
)
    requires
        call_ensures(SearchStage::next, (stage, event, &config), result),
        stage is Refused || stage is Finish || (stage is Announce && event is Replied) || (
        stage is Send && event is Announced),
    ensures
        result == stage,
{
}

/// The refusal of the service is told under the written form of its status.
pub proof fn lemma_refusal_under_its_status(
    status: u16,
    written_status: &str,
    url: &str,
    body: &str,
    given: String,
    result: String,
)
    requires
        call_ensures(format_tavily_error, (status, url, body), result),
        written_status@ == status_line(status),
        call_ensures(tavily_error_text, (status, written_status, url, body), given),
    ensures
        result@ == given@,
{
}

} // verus!
