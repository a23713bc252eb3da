//! Images: a URL, resolved against the document's, or a linear gradient.

use vstd::prelude::*;

use url::Url;

use crate::computed::{self, Context};
use crate::gradient::{all_wf, gradient_spec, without_whitespace, LinearGradient};
use crate::token::{eq_ignore_ascii_case, eq_ignore_case, ComponentValue};

verus! {

#[verifier::external_type_specification]
#[verifier::external_body]
pub struct ExUrl(Url);

/// Relies on `url::Url::join`: the URL `input` resolved against `base`, or
/// none where it cannot be parsed.
#[verifier::external_body]
fn join_url(base: &Url, input: &str) -> (r: Option<Url>) {
    base.join(input).ok()
}

/// Relies on `url::Url::parse`, which accepts the one input admitted here,
/// the absolute URL `about:invalid`, and so does not panic.
#[verifier::external_body]
fn absolute_url(input: &str) -> (r: Url)
    requires
        input@ == "about:invalid"@,
{
    Url::parse(input).unwrap()
}

/// Resolves `input` against `base_url`. A URL that cannot be resolved becomes
/// `about:invalid`, so that a broken URL is still a value.
pub fn parse_url(input: &str, base_url: &Url) -> (r: Url) {
    match join_url(base_url, input) {
        Some(url) => url,
        None => absolute_url("about:invalid"),
    }
}

/// A specified image.
pub enum Image {
    Url(Url),
    LinearGradient(LinearGradient),
}

/// An image, or `none`.
pub struct CSSImage(pub Option<Image>);

/// The numbers in the arguments of a function token have non-zero denominators.
pub open spec fn image_token_wf(t: ComponentValue) -> bool {
    t matches ComponentValue::Function(_, args) ==> all_wf(args@)
}

impl Image {
    /// A `url(...)` token, resolved against `base_url`, or a
    /// `linear-gradient(...)` function (the name in any ASCII case).
    pub fn from_component_value(component_value: &ComponentValue, base_url: &Url) -> (r: Result<Image, ()>)
        requires
            image_token_wf(*component_value),
        ensures
            match *component_value {
                ComponentValue::Url(_) => r matches Ok(Image::Url(_)),
                ComponentValue::Function(name, args) => if eq_ignore_case(name@, "linear-gradient"@) {
                    match gradient_spec(without_whitespace(args@)) {
                        Some((d, stops)) => r matches Ok(Image::LinearGradient(g)) && g.angle_or_corner
                            == d && g.stops@ == stops,
                        None => r is Err,
                    }
                } else {
                    r is Err
                },
                _ => r is Err,
            },
    {
        match component_value {
            ComponentValue::Url(url) => Ok(Image::Url(parse_url(url.as_str(), base_url))),
            ComponentValue::Function(name, args) => {
                if eq_ignore_ascii_case(name.as_str(), "linear-gradient") {
                    match LinearGradient::parse_function(args.as_slice()) {
                        Ok(g) => Ok(Image::LinearGradient(g)),
                        Err(()) => Err(()),
                    }
                } else {
                    Err(())
                }
            },
            _ => Err(()),
        }
    }

    /// Resolves the gradient's stop positions; a URL stays as it is.
    pub fn to_computed_value(self, context: &Context) -> (r: computed::Image)
        requires
            self matches Image::LinearGradient(g) ==> g.wf(),
        ensures
            match self {
                Image::Url(_) => r is Url,
                Image::LinearGradient(g) => r matches computed::Image::LinearGradient(c)
                    && computed::LinearGradient::computed_from(c, g, *context),
            },
    {
        match self {
            Image::Url(url) => computed::Image::Url(url),
            Image::LinearGradient(linear_gradient) => computed::Image::LinearGradient(
                computed::LinearGradient::compute(linear_gradient, context),
            ),
        }
    }
}

} // verus!
