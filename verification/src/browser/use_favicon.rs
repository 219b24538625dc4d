use vstd::prelude::*;

verus! {

/// Options for the favicon hook.
#[derive(Clone, Debug)]
pub struct UseFaviconOptions {
    /// Whether to append a cache-busting query to the icon URL
    pub force_refresh: bool,
    /// A prefix for every icon URL
    pub base_url: Option<String>,
    /// The `rel` of a newly created link element
    pub rel: String,
}

impl Default for UseFaviconOptions {
    fn default() -> (o: Self)
        ensures
            !o.force_refresh,
            o.base_url is None,
            o.rel@ == "shortcut icon"@,
    {
        UseFaviconOptions { force_refresh: false, base_url: None, rel: "shortcut icon".to_string() }
    }
}

/// The link target for `icon`: the base URL before it when one is given, and
/// `?v=` with the cache token after it when a refresh is forced.
pub open spec fn spec_favicon_href(icon: Seq<char>, options: UseFaviconOptions, cache_token: Seq<char>) -> Seq<char> {
    let based = match options.base_url {
        Some(base) => base@ + icon,
        None => icon,
    };
    if options.force_refresh {
        based + "?v="@ + cache_token
    } else {
        based
    }
}

/// The `href` to set on the favicon link for `icon`. `cache_token` is the
/// current time as text, used only when a refresh is forced.
pub fn favicon_href(icon: &str, options: &UseFaviconOptions, cache_token: &str) -> (href: String)
    ensures
        href@ == spec_favicon_href(icon@, *options, cache_token@),
        href@ == base_text(options.base_url) + icon@
            + (if options.force_refresh { "?v="@ + cache_token@ } else { Seq::empty() }),
{
    let mut href = String::new();
    if let Some(base) = &options.base_url {
        href.append(base.as_str());
    }
    href.append(icon);
    if options.force_refresh {
        href.append("?v=");
        href.append(cache_token);
    }
    assert(href@ =~= spec_favicon_href(icon@, *options, cache_token@));
    proof {
        lemma_favicon_href_parts(icon@, *options, cache_token@);
    }
    href
}

/// The text of an optional base URL (empty when none is given).
pub open spec fn base_text(base_url: Option<String>) -> Seq<char> {
    match base_url {
        Some(base) => base@,
        None => Seq::empty(),
    }
}

/// The href is the base URL (if any), then the icon, then `?v=` and the cache
/// token exactly when a refresh is forced, whether or not a base URL is given.
/// So a forced refresh always ends the href in the cache token, and without a
/// base URL the href starts with the icon.
pub proof fn lemma_favicon_href_parts(icon: Seq<char>, options: UseFaviconOptions, cache_token: Seq<char>)
    ensures
        spec_favicon_href(icon, options, cache_token)
            == base_text(options.base_url) + icon
                + (if options.force_refresh { "?v="@ + cache_token } else { Seq::empty() }),
        options.force_refresh ==> spec_favicon_href(icon, options, cache_token)
            == base_text(options.base_url) + icon + "?v="@ + cache_token,
        !options.force_refresh ==> spec_favicon_href(icon, options, cache_token)
            == base_text(options.base_url) + icon,
        options.base_url is None ==> spec_favicon_href(icon, options, cache_token).take(icon.len() as int) == icon,
{
    let h = spec_favicon_href(icon, options, cache_token);
    let b = base_text(options.base_url);
    if options.force_refresh {
        assert(b + icon + ("?v="@ + cache_token) =~= b + icon + "?v="@ + cache_token);
    } else {
        assert(b + icon + Seq::<char>::empty() =~= b + icon);
    }
    if options.base_url is None {
        assert(b + icon =~= icon);
        assert(h.take(icon.len() as int) =~= icon);
    }
}

} // verus!
