//! What the start-up options ask for.

use vstd::prelude::*;
use vstd::string::StringExecFns;

verus! {

/// Number of requests kept in memory where the options name none.
pub const DEFAULT_REQ_LIMIT: usize = 1000;

/// What follows a templates directory in the pattern of the template files under it.
pub const TEMPLATE_SUFFIX: &'static str = "/**/*.html";

/// Which templates are to be loaded at start-up.
#[derive(Debug)]
pub enum TemplatePlan {
    /// Only the built-in admin page.
    BuiltIn,
    /// Also the user's templates that match `pattern`, with the routes read from
    /// `routes_file`.
    Load { pattern: String, routes_file: String },
}

/// What a `TemplatePlan` holds, as mathematical values.
pub enum TemplatePlanView {
    BuiltIn,
    Load { pattern: Seq<char>, routes_file: Seq<char> },
}

impl View for TemplatePlan {
    type V = TemplatePlanView;

    open spec fn view(&self) -> TemplatePlanView {
        match self {
            TemplatePlan::BuiltIn => TemplatePlanView::BuiltIn,
            TemplatePlan::Load { pattern, routes_file } => TemplatePlanView::Load {
                pattern: pattern@,
                routes_file: routes_file@,
            },
        }
    }
}

/// What is wrong with the start-up options.
#[derive(Clone, Copy, Debug, PartialEq, Eq, Structural)]
pub enum ConfigError {
    /// A templates directory is given without a routes file.
    MissingRoutes,
}

impl ConfigError {
    /// The error in words.
    pub fn message(&self) -> (text: String)
        ensures
            text@
                == "Must provide an --extra-routes configuration file when providing user-defined templates!"@,
    {
        String::from_str(
            "Must provide an --extra-routes configuration file when providing user-defined templates!",
        )
    }
}

/// The plan that the two options ask for. Without a templates directory only the
/// built-in page is loaded, whatever the routes file; with one, a routes file is needed.
pub open spec fn planned(
    user_templates_dir: Option<Seq<char>>,
    extra_routes: Option<Seq<char>>,
) -> Result<TemplatePlanView, ConfigError> {
    match user_templates_dir {
        None => Ok(TemplatePlanView::BuiltIn),
        Some(dir) => match extra_routes {
            Some(routes_file) => Ok(
                TemplatePlanView::Load { pattern: dir + TEMPLATE_SUFFIX@, routes_file },
            ),
            None => Err(ConfigError::MissingRoutes),
        },
    }
}

/// The text of an optional string slice.
pub open spec fn opt_str(s: Option<&str>) -> Option<Seq<char>> {
    match s {
        Some(t) => Some(t@),
        None => None,
    }
}

/// What a plan or its refusal holds, as mathematical values.
pub open spec fn plan_view(plan: Result<TemplatePlan, ConfigError>) -> Result<
    TemplatePlanView,
    ConfigError,
> {
    match plan {
        Ok(p) => Ok(p@),
        Err(e) => Err(e),
    }
}

/// Decides which templates to load from the templates directory and the routes file
/// that the options name.
pub fn template_plan(user_templates_dir: Option<&str>, extra_routes: Option<&str>) -> (plan: Result<
    TemplatePlan,
    ConfigError,
>)
    ensures
        plan_view(plan) == planned(opt_str(user_templates_dir), opt_str(extra_routes)),
{
    match user_templates_dir {
        None => Ok(TemplatePlan::BuiltIn),
        Some(dir) => match extra_routes {
            Some(routes_file) => Ok(
                TemplatePlan::Load {
                    pattern: String::from_str(dir).concat(TEMPLATE_SUFFIX),
                    routes_file: String::from_str(routes_file),
                },
            ),
            None => Err(ConfigError::MissingRoutes),
        },
    }
}

} // verus!
