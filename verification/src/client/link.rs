//! Links that the application opens, and the settings that it has from its environment.
use vstd::prelude::*;

use crate::text;

verus! {

/// The scheme of the links that the application opens.
pub const ZED_URL_SCHEME: &'static str = "zed";

/// What the links that the application opens begin with.
pub open spec fn zed_link_prefix() -> Seq<char> {
    ZED_URL_SCHEME@ + "://"@
}

/// The link without its scheme, if it is one that the application opens.
pub fn parse_zed_link<'a>(link: &'a str) -> (r: Option<&'a str>)
    ensures
        match r {
            Some(rest) => link@ == zed_link_prefix() + rest@,
            None => !zed_link_prefix().is_prefix_of(link@),
        },
{
    match text::strip_prefix(link, ZED_URL_SCHEME) {
        Some(result) => match text::strip_prefix(result, "://") {
            Some(stripped) => {
                assert(link@ =~= zed_link_prefix() + stripped@);
                Some(stripped)
            },
            None => {
                proof {
                    if zed_link_prefix().is_prefix_of(link@) {
                        let scheme = ZED_URL_SCHEME@.len() as int;
                        let both = zed_link_prefix().len() as int;
                        assert(result@ =~= link@.subrange(scheme, link@.len() as int));
                        assert(result@.subrange(0, "://"@.len() as int) =~= "://"@) by {
                            assert(link@.subrange(0, both).subrange(scheme, both) =~= "://"@);
                        }
                    }
                }
                None
            },
        },
        None => {
            proof {
                if zed_link_prefix().is_prefix_of(link@) {
                    let scheme = ZED_URL_SCHEME@.len() as int;
                    assert(link@.subrange(0, zed_link_prefix().len() as int).subrange(0, scheme)
                        =~= ZED_URL_SCHEME@);
                    assert(link@.subrange(0, scheme) =~= ZED_URL_SCHEME@);
                }
            }
            None
        },
    }
}

/// The admin token, given the environment variable that may hold one. An empty one is none.
pub fn admin_api_token(variable: Option<String>) -> (r: Option<String>)
    ensures
        r == match variable {
            Some(token) if token@.len() > 0 => Some(token),
            _ => None,
        },
{
    match variable {
        Some(token) => if token.as_str().is_empty() {
            None
        } else {
            Some(token)
        },
        None => None,
    }
}

/// Whether the window counts as active always, given the environment variable that says so.
pub fn always_active(variable: Option<String>) -> (r: bool)
    ensures
        r == (variable is Some && variable->0@.len() > 0),
{
    match variable {
        Some(value) => !value.as_str().is_empty(),
        None => false,
    }
}

}
