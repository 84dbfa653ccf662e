use vstd::prelude::*;
use crate::selection::{ConfigType, Platform, PlatformSelection, Selections};

verus! {

/// The percent-encoded form of a text, as the query-component encoder
/// produces it.
pub uninterp spec fn url_encoded(s: Seq<char>) -> Seq<char>;

/// Relies on urlencoding::encode: it percent-encodes every byte of the text
/// except ASCII alphanumerics and `-`, `.`, `_`, `~`, so the result depends on
/// the text alone.
#[verifier::external_body]
fn encode_component(s: &str) -> (r: String)
    ensures
        r@ == url_encoded(s@),
{
    urlencoding::encode(s).into_owned()
}

/// The query parameter emitted for one selected platform. The array-bracket
/// key is the fixed, pre-encoded literal `platform%5B%5D`; only the value
/// goes through the encoder.
pub open spec fn spec_platform_param(p: Platform) -> Seq<char> {
    "platform%5B%5D="@ + url_encoded(p.spec_name())
}

/// The platform parameters, one per selected platform, always in the fixed
/// order windows, mac, linux.
pub open spec fn spec_platform_params(sel: PlatformSelection) -> Seq<Seq<char>> {
    (if sel.windows {
        seq![spec_platform_param(Platform::Windows)]
    } else {
        Seq::<Seq<char>>::empty()
    }) + (if sel.mac {
        seq![spec_platform_param(Platform::Mac)]
    } else {
        Seq::<Seq<char>>::empty()
    }) + (if sel.linux {
        seq![spec_platform_param(Platform::Linux)]
    } else {
        Seq::<Seq<char>>::empty()
    })
}

/// The `configType` parameter: absent when the prompt's default was kept,
/// otherwise exactly one parameter holding the encoded value.
pub open spec fn spec_config_params(c: ConfigType) -> Seq<Seq<char>> {
    if c is Omitted {
        Seq::<Seq<char>>::empty()
    } else {
        seq!["configType="@ + url_encoded(c.spec_value())]
    }
}

/// The `searchPackage` parameter: absent when the search text is empty,
/// otherwise exactly one parameter holding the encoded text.
pub open spec fn spec_search_params(s: Seq<char>) -> Seq<Seq<char>> {
    if s.len() == 0 {
        Seq::<Seq<char>>::empty()
    } else {
        seq!["searchPackage="@ + url_encoded(s)]
    }
}

/// All query parameters, in the fixed order platforms, configType,
/// searchPackage, whatever order the prompts were answered in.
pub open spec fn spec_query_params(sel: Selections) -> Seq<Seq<char>> {
    spec_platform_params(sel.platforms) + spec_config_params(sel.config_type)
        + spec_search_params(sel.search_package@)
}

/// The parameters joined with `&` between each pair.
pub open spec fn spec_join_params(parts: Seq<Seq<char>>) -> Seq<char>
    decreases parts.len(),
{
    if parts.len() == 0 {
        Seq::<char>::empty()
    } else if parts.len() == 1 {
        parts[0]
    } else {
        parts[0] + "&"@ + spec_join_params(parts.subrange(1, parts.len() as int))
    }
}

/// The complete request URL: the base URL untouched when no parameter was
/// produced, else the base URL, a `?`, and the joined parameters.
pub open spec fn spec_url(base: Seq<char>, sel: Selections) -> Seq<char> {
    if spec_query_params(sel).len() == 0 {
        base
    } else {
        base + "?"@ + spec_join_params(spec_query_params(sel))
    }
}

proof fn lemma_join_params_push(parts: Seq<Seq<char>>, x: Seq<char>)
    ensures
        parts.len() == 0 ==> spec_join_params(parts.push(x)) == x,
        parts.len() > 0 ==> spec_join_params(parts.push(x)) == spec_join_params(parts) + "&"@ + x,
    decreases parts.len(),
{
    if parts.len() == 0 {
        assert(spec_join_params(parts.push(x)) == parts.push(x)[0]);
    } else if parts.len() == 1 {
        let sub = parts.push(x).subrange(1, 2);
        assert(sub =~= seq![x]);
        assert(sub.len() == 1);
        assert(spec_join_params(sub) == sub[0]);
        assert(sub[0] == x);
        assert(spec_join_params(parts.push(x)) == parts.push(x)[0] + "&"@ + spec_join_params(sub));
        assert(spec_join_params(parts.push(x)) =~= spec_join_params(parts) + "&"@ + x);
    } else {
        let rest = parts.subrange(1, parts.len() as int);
        lemma_join_params_push(rest, x);
        assert(parts.push(x).subrange(1, parts.len() as int + 1) =~= rest.push(x));
        assert(spec_join_params(parts.push(x)) =~= spec_join_params(parts) + "&"@ + x);
    }
}

/// The views of a list of built parameter strings.
spec fn views_of(parts: Seq<String>) -> Seq<Seq<char>> {
    parts.map_values(|s: String| s@)
}

fn platform_param(p: Platform) -> (r: String)
    ensures
        r@ == spec_platform_param(p),
{
    String::from_str("platform%5B%5D=").concat(encode_component(p.name()).as_str())
}

fn config_param(c: &ConfigType) -> (r: String)
    ensures
        r@ == "configType="@ + url_encoded(c.spec_value()),
{
    String::from_str("configType=").concat(encode_component(c.value()).as_str())
}

fn search_param(s: &str) -> (r: String)
    ensures
        r@ == "searchPackage="@ + url_encoded(s@),
{
    String::from_str("searchPackage=").concat(encode_component(s).as_str())
}

/// Builds the complete request URL from the base URL and the user's
/// selections, exactly as `spec_url` lays it down: the platform parameters in
/// the fixed order windows, mac, linux, then `configType` unless it was left
/// at the omitted default, then `searchPackage` unless the search text is
/// empty; no `?` is appended when no parameter was produced.
pub fn build_url(base_url: &str, sel: &Selections) -> (r: String)
    ensures
        r@ == spec_url(base_url@, *sel),
{
    let mut params: Vec<String> = Vec::new();
    if sel.platforms.windows {
        params.push(platform_param(Platform::Windows));
    }
    if sel.platforms.mac {
        params.push(platform_param(Platform::Mac));
    }
    if sel.platforms.linux {
        params.push(platform_param(Platform::Linux));
    }
    match sel.config_type {
        ConfigType::Omitted => {},
        _ => {
            params.push(config_param(&sel.config_type));
        },
    }
    if sel.search_package.as_str().unicode_len() > 0 {
        params.push(search_param(sel.search_package.as_str()));
    }
    proof {
        assert(views_of(params@) =~= spec_query_params(*sel));
    }
    let mut url = String::from_str(base_url);
    if params.len() > 0 {
        url.append("?");
        let mut i: usize = 0;
        while i < params.len()
            invariant
                i <= params@.len(),
                views_of(params@) == spec_query_params(*sel),
                url@ == base_url@ + "?"@ + spec_join_params(views_of(params@).take(i as int)),
            decreases params@.len() - i,
        {
            if i > 0 {
                url.append("&");
            }
            url.append(params[i].as_str());
            proof {
                lemma_join_params_push(views_of(params@).take(i as int), views_of(params@)[i as int]);
                assert(views_of(params@).take(i as int).push(views_of(params@)[i as int])
                    =~= views_of(params@).take(i + 1));
            }
            i = i + 1;
        }
        proof {
            assert(views_of(params@).take(params@.len() as int) =~= views_of(params@));
        }
    }
    url
}

/// A parameter whose key is `key`: the text starts with the key, equals sign
/// included.
pub open spec fn param_has_key(param: Seq<char>, key: Seq<char>) -> bool {
    param.len() >= key.len() && param.subrange(0, key.len() as int) == key
}

/// The parameters of a list that carry the given key, in their list order.
pub open spec fn params_with_key(parts: Seq<Seq<char>>, key: Seq<char>) -> Seq<Seq<char>>
    decreases parts.len(),
{
    if parts.len() == 0 {
        Seq::<Seq<char>>::empty()
    } else {
        (if param_has_key(parts[0], key) {
            seq![parts[0]]
        } else {
            Seq::<Seq<char>>::empty()
        }) + params_with_key(parts.subrange(1, parts.len() as int), key)
    }
}

proof fn lemma_params_with_key_distributes(a: Seq<Seq<char>>, b: Seq<Seq<char>>, key: Seq<char>)
    ensures
        params_with_key(a + b, key) =~= params_with_key(a, key) + params_with_key(b, key),
    decreases a.len(),
{
    if a.len() == 0 {
        assert(a + b =~= b);
        assert(params_with_key(a, key) =~= Seq::<Seq<char>>::empty());
    } else {
        let arest = a.subrange(1, a.len() as int);
        lemma_params_with_key_distributes(arest, b, key);
        assert((a + b).subrange(1, (a + b).len() as int) =~= arest + b);
        assert((a + b)[0] == a[0]);
    }
}

proof fn lemma_params_with_key_singleton(x: Seq<char>, key: Seq<char>)
    ensures
        param_has_key(x, key) ==> params_with_key(seq![x], key) =~= seq![x],
        !param_has_key(x, key) ==> params_with_key(seq![x], key) =~= Seq::<Seq<char>>::empty(),
{
    let s = seq![x];
    assert(s.subrange(1, 1) =~= Seq::<Seq<char>>::empty());
    assert(params_with_key(s.subrange(1, 1), key) =~= Seq::<Seq<char>>::empty());
    assert(s[0] == x);
    if param_has_key(x, key) {
        assert(params_with_key(s, key) =~= seq![x] + Seq::<Seq<char>>::empty());
    } else {
        assert(params_with_key(s, key) =~= Seq::<Seq<char>>::empty()
            + Seq::<Seq<char>>::empty());
    }
}

proof fn lemma_filter_pieces(sel: Selections, key: Seq<char>)
    ensures
        params_with_key(spec_query_params(sel), key) =~= params_with_key(
            spec_platform_params(sel.platforms),
            key,
        ) + params_with_key(spec_config_params(sel.config_type), key) + params_with_key(
            spec_search_params(sel.search_package@),
            key,
        ),
{
    let pp = spec_platform_params(sel.platforms);
    let cp = spec_config_params(sel.config_type);
    let sp = spec_search_params(sel.search_package@);
    lemma_params_with_key_distributes(pp + cp, sp, key);
    lemma_params_with_key_distributes(pp, cp, key);
}

proof fn lemma_platform_pieces(sel: PlatformSelection, key: Seq<char>)
    ensures
        params_with_key(spec_platform_params(sel), key) =~= params_with_key(
            (if sel.windows {
                seq![spec_platform_param(Platform::Windows)]
            } else {
                Seq::<Seq<char>>::empty()
            }),
            key,
        ) + params_with_key(
            (if sel.mac {
                seq![spec_platform_param(Platform::Mac)]
            } else {
                Seq::<Seq<char>>::empty()
            }),
            key,
        ) + params_with_key(
            (if sel.linux {
                seq![spec_platform_param(Platform::Linux)]
            } else {
                Seq::<Seq<char>>::empty()
            }),
            key,
        ),
{
    let w = if sel.windows {
        seq![spec_platform_param(Platform::Windows)]
    } else {
        Seq::<Seq<char>>::empty()
    };
    let m = if sel.mac {
        seq![spec_platform_param(Platform::Mac)]
    } else {
        Seq::<Seq<char>>::empty()
    };
    let l = if sel.linux {
        seq![spec_platform_param(Platform::Linux)]
    } else {
        Seq::<Seq<char>>::empty()
    };
    lemma_params_with_key_distributes(w + m, l, key);
    lemma_params_with_key_distributes(w, m, key);
}

proof fn lemma_concat_has_key(key: Seq<char>, e: Seq<char>)
    ensures
        param_has_key(key + e, key),
{
    assert((key + e).subrange(0, key.len() as int) =~= key);
}

proof fn lemma_concat_not_key(key1: Seq<char>, e: Seq<char>, key2: Seq<char>)
    requires
        key1.len() > 0,
        key2.len() > 0,
        key1[0] != key2[0],
    ensures
        !param_has_key(key1 + e, key2),
{
    if param_has_key(key1 + e, key2) {
        assert((key1 + e).subrange(0, key2.len() as int)[0] == (key1 + e)[0]);
        assert(false);
    }
}

/// The fixed platform list in the order the prompt offers it and the query
/// string keeps it.
pub open spec fn platforms_in_order() -> Seq<Platform> {
    seq![Platform::Windows, Platform::Mac, Platform::Linux]
}

/// The platform parameters are the selected platforms of the fixed list, in
/// that list's order, one parameter each: whatever order the user toggled
/// them in, the query string lists them as windows, mac, linux.
pub proof fn lemma_platform_params_canonical(sel: PlatformSelection)
    ensures
        spec_platform_params(sel) =~= platforms_in_order().filter(
            |p: Platform| sel.selected(p),
        ).map_values(|p: Platform| spec_platform_param(p)),
{
    reveal_with_fuel(Seq::filter, 4);
    let s3 = platforms_in_order();
    let s2 = seq![Platform::Windows, Platform::Mac];
    let s1 = seq![Platform::Windows];
    let s0 = Seq::<Platform>::empty();
    assert(s3.drop_last() =~= s2);
    assert(s2.drop_last() =~= s1);
    assert(s1.drop_last() =~= s0);
}

/// The query carries exactly one `platform%5B%5D=` parameter per selected
/// platform: those parameters stand first in the query, in the fixed order
/// windows, mac, linux, and no other parameter carries that key.
pub proof fn lemma_platform_occurrence(sel: Selections)
    ensures
        params_with_key(spec_query_params(sel), "platform%5B%5D="@) =~= spec_platform_params(
            sel.platforms,
        ),
        spec_platform_params(sel.platforms).len() == sel.platforms.spec_count(),
        spec_query_params(sel).subrange(0, sel.platforms.spec_count()) =~= spec_platform_params(
            sel.platforms,
        ),
{
    reveal_strlit("platform%5B%5D=");
    reveal_strlit("configType=");
    reveal_strlit("searchPackage=");
    let key = "platform%5B%5D="@;
    lemma_filter_pieces(sel, key);
    lemma_platform_pieces(sel.platforms, key);
    lemma_concat_has_key(key, url_encoded(Platform::Windows.spec_name()));
    lemma_concat_has_key(key, url_encoded(Platform::Mac.spec_name()));
    lemma_concat_has_key(key, url_encoded(Platform::Linux.spec_name()));
    lemma_params_with_key_singleton(spec_platform_param(Platform::Windows), key);
    lemma_params_with_key_singleton(spec_platform_param(Platform::Mac), key);
    lemma_params_with_key_singleton(spec_platform_param(Platform::Linux), key);
    if !(sel.config_type is Omitted) {
        lemma_concat_not_key("configType="@, url_encoded(sel.config_type.spec_value()), key);
        lemma_params_with_key_singleton(
            "configType="@ + url_encoded(sel.config_type.spec_value()),
            key,
        );
    }
    if sel.search_package@.len() > 0 {
        lemma_concat_not_key("searchPackage="@, url_encoded(sel.search_package@), key);
        lemma_params_with_key_singleton(
            "searchPackage="@ + url_encoded(sel.search_package@),
            key,
        );
    }
    assert(params_with_key(spec_query_params(sel), key) =~= spec_platform_params(sel.platforms));
}

/// The query carries no `configType=` parameter when the prompt's omitted
/// default was kept, and exactly one, holding the encoded config type, when
/// computer or user was chosen.
pub proof fn lemma_config_type_occurrence(sel: Selections)
    ensures
        sel.config_type is Omitted ==> params_with_key(spec_query_params(sel), "configType="@)
            =~= Seq::<Seq<char>>::empty(),
        !(sel.config_type is Omitted) ==> params_with_key(spec_query_params(sel), "configType="@)
            =~= seq!["configType="@ + url_encoded(sel.config_type.spec_value())],
{
    reveal_strlit("platform%5B%5D=");
    reveal_strlit("configType=");
    reveal_strlit("searchPackage=");
    let key = "configType="@;
    lemma_filter_pieces(sel, key);
    lemma_platform_pieces(sel.platforms, key);
    lemma_concat_not_key("platform%5B%5D="@, url_encoded(Platform::Windows.spec_name()), key);
    lemma_concat_not_key("platform%5B%5D="@, url_encoded(Platform::Mac.spec_name()), key);
    lemma_concat_not_key("platform%5B%5D="@, url_encoded(Platform::Linux.spec_name()), key);
    lemma_params_with_key_singleton(spec_platform_param(Platform::Windows), key);
    lemma_params_with_key_singleton(spec_platform_param(Platform::Mac), key);
    lemma_params_with_key_singleton(spec_platform_param(Platform::Linux), key);
    if !(sel.config_type is Omitted) {
        lemma_concat_has_key(key, url_encoded(sel.config_type.spec_value()));
        lemma_params_with_key_singleton(
            "configType="@ + url_encoded(sel.config_type.spec_value()),
            key,
        );
    }
    if sel.search_package@.len() > 0 {
        lemma_concat_not_key("searchPackage="@, url_encoded(sel.search_package@), key);
        lemma_params_with_key_singleton(
            "searchPackage="@ + url_encoded(sel.search_package@),
            key,
        );
    }
}

/// The query carries no `searchPackage=` parameter when the search text is
/// empty, and exactly one, holding the percent-encoded text, when it is not.
pub proof fn lemma_search_package_occurrence(sel: Selections)
    ensures
        sel.search_package@.len() == 0 ==> params_with_key(
            spec_query_params(sel),
            "searchPackage="@,
        ) =~= Seq::<Seq<char>>::empty(),
        sel.search_package@.len() > 0 ==> params_with_key(
            spec_query_params(sel),
            "searchPackage="@,
        ) =~= seq!["searchPackage="@ + url_encoded(sel.search_package@)],
{
    reveal_strlit("platform%5B%5D=");
    reveal_strlit("configType=");
    reveal_strlit("searchPackage=");
    let key = "searchPackage="@;
    lemma_filter_pieces(sel, key);
    lemma_platform_pieces(sel.platforms, key);
    lemma_concat_not_key("platform%5B%5D="@, url_encoded(Platform::Windows.spec_name()), key);
    lemma_concat_not_key("platform%5B%5D="@, url_encoded(Platform::Mac.spec_name()), key);
    lemma_concat_not_key("platform%5B%5D="@, url_encoded(Platform::Linux.spec_name()), key);
    lemma_params_with_key_singleton(spec_platform_param(Platform::Windows), key);
    lemma_params_with_key_singleton(spec_platform_param(Platform::Mac), key);
    lemma_params_with_key_singleton(spec_platform_param(Platform::Linux), key);
    if !(sel.config_type is Omitted) {
        lemma_concat_not_key("configType="@, url_encoded(sel.config_type.spec_value()), key);
        lemma_params_with_key_singleton(
            "configType="@ + url_encoded(sel.config_type.spec_value()),
            key,
        );
    }
    if sel.search_package@.len() > 0 {
        lemma_concat_has_key(key, url_encoded(sel.search_package@));
        lemma_params_with_key_singleton(
            "searchPackage="@ + url_encoded(sel.search_package@),
            key,
        );
    }
}

} // verus!
