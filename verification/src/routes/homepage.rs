//! The home page.

use vstd::prelude::*;

verus! {

/// Where the making of the home page stopped.
#[derive(Clone, Copy, Debug, PartialEq, Eq, Structural)]
pub enum HomepageFailure {
    /// The store gave no content for the page.
    Loading,
    /// The content could not be handed to the template.
    Context,
    /// The template could not be rendered.
    Rendering,
}

/// What is shown in place of the home page.
pub open spec fn failure_page(failure: HomepageFailure) -> Seq<char> {
    match failure {
        HomepageFailure::Loading => "<h1>Error loading content</h1>"@,
        HomepageFailure::Context => "<h1>Error preparing context</h1>"@,
        HomepageFailure::Rendering =>
            "Error rendering the homepage, did you you need to have <code>homepage_content</code> present in your wordford page"@,
    }
}

/// The name of the page whose content the home page shows.
pub const HOMEPAGE: &'static str = "homepage";

/// The app that owns the home page.
pub const HOMEPAGE_APP: i64 = 1;

/// What is shown in place of the home page.
pub fn failure_body(failure: HomepageFailure) -> (body: &'static str)
    ensures
        body@ == failure_page(failure),
{
    match failure {
        HomepageFailure::Loading => "<h1>Error loading content</h1>",
        HomepageFailure::Context => "<h1>Error preparing context</h1>",
        HomepageFailure::Rendering =>
            "Error rendering the homepage, did you you need to have <code>homepage_content</code> present in your wordford page",
    }
}

} // verus!
