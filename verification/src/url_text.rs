//! The text of URLs: where their path stands in it.

use vstd::prelude::*;

verus! {

/// The first place in `text`, at `from` or behind it, that holds one of `stops`; the end of the
/// text if there is none.
pub open spec fn next_of(text: Seq<char>, from: int, stops: Set<char>) -> int
    decreases text.len() - from,
{
    if 0 <= from < text.len() && !stops.contains(text[from]) {
        next_of(text, from + 1, stops)
    } else {
        from
    }
}

/// Where the scheme of a URL ends.
pub open spec fn scheme_end(url: Seq<char>) -> int {
    next_of(url, 0, set![':'])
}

/// The scheme of a URL.
pub open spec fn scheme(url: Seq<char>) -> Seq<char> {
    url.take(scheme_end(url))
}

/// Whether the scheme of a URL is one of those whose host is the name of a domain or an IP address,
/// and whose path is never empty. The scheme `file` has rules of its own and does not count.
pub open spec fn is_special(url: Seq<char>) -> bool {
    let scheme = scheme(url);
    scheme == "http"@ || scheme == "https"@ || scheme == "ws"@ || scheme == "wss"@ || scheme
        == "ftp"@
}

/// Whether the text is short enough for the characters of a host and of what stands before it to be
/// counted in 32 bits with a sign, as the parser of `url` counts them.
pub open spec fn is_countable(text: Seq<char>) -> bool {
    text.len() <= i32::MAX
}

/// Tests whether a text is short enough to be parsed as a URL.
pub fn test_countable(text: &str) -> (countable: bool)
    ensures
        countable == is_countable(text@),
{
    text.unicode_len() <= i32::MAX as usize
}

/// Whether `c` may stand in a normalised scheme.
pub open spec fn is_scheme_char(c: char) -> bool {
    'a' <= c <= 'z' || '0' <= c <= '9' || c == '+' || c == '-' || c == '.'
}

/// Whether `url` begins with a normalised scheme, a colon and two slashes, as URLs that name a host
/// do. The scheme `file` has rules of its own and does not count.
pub open spec fn has_authority(url: Seq<char>) -> bool {
    let end = scheme_end(url);
    &&& 0 < end
    &&& end + 2 < url.len()
    &&& 'a' <= url[0] <= 'z'
    &&& forall|i: int| 0 <= i < end ==> is_scheme_char(#[trigger] url[i])
    &&& url[end + 1] == '/'
    &&& url[end + 2] == '/'
    &&& scheme(url) != "file"@
}

/// Where the path begins in the text of a URL that has an authority.
pub open spec fn path_start(url: Seq<char>) -> int {
    next_of(url, scheme_end(url) + 3, set!['/', '?', '#'])
}

/// Where the path ends in the text of a URL that has an authority.
pub open spec fn path_end(url: Seq<char>) -> int {
    next_of(url, path_start(url), set!['?', '#'])
}

/// What stands before the path: the scheme, the user, the password, the host and the port.
pub open spec fn before_path(url: Seq<char>) -> Seq<char> {
    url.take(path_start(url))
}

/// The path.
pub open spec fn path_part(url: Seq<char>) -> Seq<char> {
    url.subrange(path_start(url), path_end(url))
}

/// What stands behind the path: the query and the fragment.
pub open spec fn after_path(url: Seq<char>) -> Seq<char> {
    url.skip(path_end(url))
}

/// Whether `xn--`, which marks the encoded name of an international domain, occurs in `text`.
pub open spec fn has_punycode(text: Seq<char>) -> bool {
    exists|i: int| 0 <= i <= text.len() && "xn--"@.is_prefix_of(#[trigger] text.skip(i))
}

/// Whether the host of a normalised URL is written with nothing encoded that is decoded when the
/// URL is parsed again.
pub open spec fn has_literal_host(url: Seq<char>) -> bool {
    is_special(url) ==> !has_punycode(before_path(url))
}

/// Whether `url` begins like the URL of a PostgreSQL database.
pub open spec fn is_postgres_url(url: Seq<char>) -> bool {
    "postgres://"@.is_prefix_of(url) || "postgresql://"@.is_prefix_of(url)
}

/// Whether `c` is a letter or a digit of ASCII, or a hyphen.
pub open spec fn is_plain(c: char) -> bool {
    'a' <= c <= 'z' || 'A' <= c <= 'Z' || '0' <= c <= '9' || c == '-'
}

/// Whether `name` consists of letters and digits of ASCII and of hyphens.
pub open spec fn is_plain_name(name: Seq<char>) -> bool {
    forall|i: int| 0 <= i < name.len() ==> is_plain(#[trigger] name[i])
}

/// The path that stands for the plain name `name`: a slash and the name, or nothing if the name is
/// empty.
pub open spec fn path_of_name(name: Seq<char>) -> Seq<char> {
    if name.len() == 0 {
        name
    } else {
        "/"@ + name
    }
}

/// The path that stands for the plain name `name` in a URL like `url`: the schemes whose path is
/// never empty keep the slash of an empty name.
pub open spec fn path_for(url: Seq<char>, name: Seq<char>) -> Seq<char> {
    if is_special(url) && name.len() == 0 {
        "/"@
    } else {
        path_of_name(name)
    }
}

/// A URL whose path gives way to the plain name `name`.
pub open spec fn with_name(url: Seq<char>, name: Seq<char>) -> Seq<char> {
    before_path(url) + path_for(url, name) + after_path(url)
}

/// The place that is looked for lies between where the search begins and the end of the text, holds
/// a stop unless it is the end, and has no stop before it.
proof fn next_of_is_found(text: Seq<char>, from: int, stops: Set<char>)
    requires
        0 <= from <= text.len(),
    ensures
        from <= next_of(text, from, stops) <= text.len(),
        next_of(text, from, stops) < text.len() ==> stops.contains(
            text[next_of(text, from, stops)],
        ),
        forall|i: int|
            from <= i < next_of(text, from, stops) ==> !stops.contains(#[trigger] text[i]),
    decreases text.len() - from,
{
    if from < text.len() && !stops.contains(text[from]) {
        next_of_is_found(text, from + 1, stops);
    }
}

/// The place that is looked for is the first one that holds a stop, or the end.
proof fn next_of_is_first(text: Seq<char>, from: int, place: int, stops: Set<char>)
    requires
        0 <= from <= place <= text.len(),
        place < text.len() ==> stops.contains(text[place]),
        forall|i: int| from <= i < place ==> !stops.contains(#[trigger] text[i]),
    ensures
        next_of(text, from, stops) == place,
    decreases place - from,
{
    if from < place {
        assert(!stops.contains(text[from]));
        next_of_is_first(text, from + 1, place, stops);
    }
}

/// A URL that has an authority consists of what stands before its path, the path, and what stands
/// behind it.
pub proof fn url_is_the_sum_of_its_parts(url: Seq<char>)
    requires
        has_authority(url),
    ensures
        before_path(url) + path_part(url) + after_path(url) == url,
{
    next_of_is_found(url, scheme_end(url) + 3, set!['/', '?', '#']);
    next_of_is_found(url, path_start(url), set!['?', '#']);
}

/// A URL with an authority whose path gives way to a plain name has the path of that name; what
/// stands before the path, and what stands behind it, is as it was.
pub proof fn only_the_path_is_replaced(url: Seq<char>, name: Seq<char>)
    requires
        has_authority(url),
        is_plain_name(name),
    ensures
        path_part(with_name(url, name)) == path_for(url, name),
        before_path(with_name(url, name)) == before_path(url),
        after_path(with_name(url, name)) == after_path(url),
{
    reveal_strlit("/");
    let colon = set![':'];
    let ends_authority = set!['/', '?', '#'];
    let ends_path = set!['?', '#'];
    let scheme = scheme_end(url);
    let start = path_start(url);
    let end = path_end(url);
    next_of_is_found(url, 0, colon);
    next_of_is_found(url, scheme + 3, ends_authority);
    next_of_is_found(url, start, ends_path);
    let path = path_for(url, name);
    let changed = with_name(url, name);
    assert forall|i: int| 0 <= i < start implies #[trigger] changed[i] == url[i] by {}
    assert forall|i: int| start <= i < start + path.len() implies #[trigger] changed[i] == path[i
        - start] by {}
    assert(changed[scheme] == url[scheme]);
    assert forall|i: int| 0 <= i < scheme implies !colon.contains(#[trigger] changed[i]) by {
        assert(changed[i] == url[i]);
    }
    next_of_is_first(changed, 0, scheme, colon);
    assert forall|i: int| scheme + 3 <= i < start implies !ends_authority.contains(
        #[trigger] changed[i],
    ) by {
        assert(changed[i] == url[i]);
    }
    if path.len() > 0 {
        assert(changed[start] == path[0]);
    }
    if end < url.len() {
        assert(changed[start + path.len()] == url[end]);
    }
    next_of_is_first(changed, scheme + 3, start, ends_authority);
    assert forall|i: int| start <= i < start + path.len() implies !ends_path.contains(
        #[trigger] changed[i],
    ) by {
        assert(changed[i] == path[i - start]);
        if i > start {
            assert(path[i - start] == name[i - start - 1]);
            assert(is_plain(name[i - start - 1]));
        }
    }
    next_of_is_first(changed, start, start + path.len(), ends_path);
    assert(before_path(changed) == before_path(url));
    assert(path_part(changed) == path);
    assert(after_path(changed) == after_path(url));
}

/// The URL of a PostgreSQL database has an authority, and its scheme is not one of the special
/// ones.
pub proof fn postgres_urls_have_an_authority(url: Seq<char>)
    requires
        is_postgres_url(url),
    ensures
        has_authority(url),
        !is_special(url),
{
    reveal_strlit("postgres://");
    reveal_strlit("postgresql://");
    reveal_strlit("file");
    reveal_strlit("http");
    reveal_strlit("https");
    reveal_strlit("ws");
    reveal_strlit("wss");
    reveal_strlit("ftp");
    let prefix = if "postgres://"@.is_prefix_of(url) {
        "postgres://"@
    } else {
        "postgresql://"@
    };
    let end = prefix.len() - 3;
    assert(prefix == url.take(prefix.len() as int));
    assert forall|i: int| 0 <= i < prefix.len() implies #[trigger] url[i] == prefix[i] by {
        assert(prefix[i] == url.take(prefix.len() as int)[i]);
    }
    assert forall|i: int| 0 <= i < end implies is_scheme_char(#[trigger] url[i]) && !set![
        ':',
    ].contains(url[i]) by {
        assert(url[i] == prefix[i]);
    }
    assert(url[end] == prefix[end]);
    next_of_is_first(url, 0, end, set![':']);
    assert(url[0] == prefix[0]);
    assert(url[end + 1] == prefix[end + 1]);
    assert(url[end + 2] == prefix[end + 2]);
    assert(scheme(url).len() == end);
}

/// A text can be parsed as a URL exactly if it has 2,147,483,647 characters at most.
pub proof fn long_texts_are_told(text: &str, countable: bool)
    requires
        call_ensures(test_countable, (text,), countable),
    ensures
        countable <==> text@.len() <= 2_147_483_647,
{
}

} // verus!
