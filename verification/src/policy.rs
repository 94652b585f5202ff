//! The browser features that every reply switches off.

use itertools::Itertools;
use vstd::prelude::*;
use vstd::string::*;

verus! {

/// `items` in order, with `sep` between each two neighbours.
pub open spec fn joined_with(items: Seq<Seq<char>>, sep: Seq<char>) -> Seq<char>
    decreases items.len(),
{
    if items.len() == 0 {
        Seq::empty()
    } else if items.len() == 1 {
        items[0]
    } else {
        joined_with(items.drop_last(), sep) + sep + items.last()
    }
}

/// `Itertools::join` on the items of a vector: the items as they display, in
/// order, with `sep` between each two.
#[verifier::external_body]
pub(crate) fn join_with(items: &Vec<String>, sep: &str) -> (s: String)
    ensures
        s@ == joined_with(items.deep_view(), sep@),
{
    items.iter().join(sep)
}

/// The names of the features, in the order in which a policy lists them; the
/// one in the middle is listed only where `cohort` is set.
pub open spec fn feature_names(cohort: bool) -> Seq<Seq<char>> {
    seq![
        "accelerometer"@,
        "ambient-light-sensor"@,
        "autoplay"@,
        "battery"@,
        "camera"@,
        "display-capture"@,
        "document-domain"@,
        "encrypted-media"@,
        "execution-while-not-rendered"@,
        "execution-while-out-of-viewport"@,
        "fullscreen"@,
        "geolocation"@,
        "gyroscope"@,
    ] + (if cohort {
        seq!["interest-cohort"@]
    } else {
        Seq::empty()
    }) + seq![
        "layout-animations"@,
        "legacy-image-formats"@,
        "magnetometer"@,
        "microphone"@,
        "midi"@,
        "navigation-override"@,
        "oversized-images"@,
        "payment"@,
        "picture-in-picture"@,
        "publickey-credentials-get"@,
        "sync-xhr"@,
        "usb"@,
        "vr"@,
        "wake-lock"@,
        "screen-wake-lock"@,
        "web-share"@,
        "xr-spatial-tracking"@,
    ]
}

/// The directive that allows `name` to no origin.
pub open spec fn directive(name: Seq<char>) -> Seq<char> {
    name + " 'none'"@
}

/// The policy that allows each of `names` to no origin.
pub open spec fn policy(names: Seq<Seq<char>>) -> Seq<char> {
    joined_with(names.map_values(|name: Seq<char>| directive(name)), "; "@)
}

/// The names of the features, in the order in which a policy lists them.
pub fn features(cohort: bool) -> (names: Vec<&'static str>)
    ensures
        names.deep_view() == feature_names(cohort),
{
    let mut names: Vec<&'static str> = vec![
        "accelerometer",
        "ambient-light-sensor",
        "autoplay",
        "battery",
        "camera",
        "display-capture",
        "document-domain",
        "encrypted-media",
        "execution-while-not-rendered",
        "execution-while-out-of-viewport",
        "fullscreen",
        "geolocation",
        "gyroscope",
    ];
    if cohort {
        names.push("interest-cohort");
    }
    let mut tail: Vec<&'static str> = vec![
        "layout-animations",
        "legacy-image-formats",
        "magnetometer",
        "microphone",
        "midi",
        "navigation-override",
        "oversized-images",
        "payment",
        "picture-in-picture",
        "publickey-credentials-get",
        "sync-xhr",
        "usb",
        "vr",
        "wake-lock",
        "screen-wake-lock",
        "web-share",
        "xr-spatial-tracking",
    ];
    names.append(&mut tail);
    names
}

/// The value of a policy header that switches every feature off.
pub fn disabled_features(cohort: bool) -> (value: String)
    ensures
        value@ == policy(feature_names(cohort)),
{
    let names = features(cohort);
    let mut directives: Vec<String> = Vec::new();
    let mut i: usize = 0;
    while i < names.len()
        invariant
            i <= names.len(),
            directives.deep_view() == names.deep_view().take(i as int).map_values(
                |name: Seq<char>| directive(name),
            ),
        decreases names.len() - i,
    {
        let ghost before = directives.deep_view();
        directives.push(String::from_str(names[i]).concat(" 'none'"));
        proof {
            let view = names.deep_view();
            assert(directives.deep_view() =~= before.push(directive(view[i as int])));
        }
        i = i + 1;
    }
    proof {
        assert(names.deep_view().take(i as int) == names.deep_view());
    }
    join_with(&directives, "; ")
}

} // verus!
