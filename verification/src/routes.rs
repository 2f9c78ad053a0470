//! The table of configured routes and the choice of a response for a captured request.

use crate::name_map::{collected, NameMap};
use crate::record::{opt_text, CapturedRequest};
use crate::text::{to_uppercase, uppercase};
use vstd::prelude::*;
use vstd::string::StringExecFns;

verus! {

/// One configured route: requests with this method and exactly this path are answered
/// with the named template.
#[derive(Debug)]
pub struct RouteRule {
    pub method: String,
    pub route_path: String,
    pub template_name: String,
    pub content_type: Option<String>,
}

/// What a `RouteRule` holds, as mathematical values.
pub struct RuleView {
    pub method: Seq<char>,
    pub route_path: Seq<char>,
    pub template_name: Seq<char>,
    pub content_type: Option<Seq<char>>,
}

impl View for RouteRule {
    type V = RuleView;

    open spec fn view(&self) -> RuleView {
        RuleView {
            method: self.method@,
            route_path: self.route_path@,
            template_name: self.template_name@,
            content_type: opt_text(self.content_type),
        }
    }
}

/// The content type of a response that names none.
pub const DEFAULT_CONTENT_TYPE: &'static str = "text/html; charset=UTF-8";

/// The content type that a rule's response carries.
pub open spec fn content_type_of(rule: RuleView) -> Seq<char> {
    match rule.content_type {
        Some(t) => t,
        None => DEFAULT_CONTENT_TYPE@,
    }
}

/// The rules keyed by their path, as a list of pairs in the order given.
pub open spec fn keyed(rules: Seq<RouteRule>) -> Seq<(Seq<char>, RouteRule)> {
    Seq::new(rules.len(), |i: int| (rules[i].route_path@, rules[i]))
}

/// The table that a list of rules makes: of two rules with one path the later stays.
pub open spec fn table_of(rules: Seq<RouteRule>) -> Map<Seq<char>, RouteRule> {
    collected(keyed(rules))
}

/// The active routes, by path.
#[derive(Debug)]
pub struct RouteTable {
    rules: NameMap<RouteRule>,
}

impl RouteTable {
    /// The rules by path.
    pub closed spec fn view(self) -> Map<Seq<char>, RouteRule> {
        self.rules@
    }

    /// Builds the table from the rules in the order given.
    pub fn from_rules(rules: Vec<RouteRule>) -> (table: RouteTable)
        ensures
            table@ == table_of(rules@),
    {
        let mut by_path: NameMap<RouteRule> = NameMap::new();
        let ghost all = rules@;
        assert(keyed(all.take(0)) =~= Seq::<(Seq<char>, RouteRule)>::empty());
        for rule in it: rules
            invariant
                it.seq() == all,
                by_path@ == table_of(all.take(it.index() as int)),
        {
            let ghost k = it.index() as int;
            proof {
                let next = keyed(all.take(k + 1));
                assert(next.drop_last() =~= keyed(all.take(k)));
                assert(next.last() == (rule.route_path@, rule));
            }
            by_path.insert(rule.route_path.clone(), rule);
        }
        assert(all.take(all.len() as int) =~= all);
        RouteTable { rules: by_path }
    }

    /// The rule registered for exactly this path.
    pub fn lookup(&self, path: &str) -> (found: Option<&RouteRule>)
        ensures
            match found {
                Some(rule) => self@.contains_key(path@) && *rule == self@[path@],
                None => !self@.contains_key(path@),
            },
    {
        self.rules.get(path)
    }

    /// Number of paths with a rule.
    pub fn len(&self) -> (n: usize)
        ensures
            n == self@.len(),
            self@.dom().finite(),
    {
        self.rules.len()
    }
}

/// How a captured request is to be answered.
#[derive(Debug)]
pub enum Dispatch {
    /// With the generic acknowledgement.
    Acknowledge,
    /// With the rendering of a template, under the given content type.
    Render { template_name: String, content_type: String },
}

/// What a `Dispatch` holds, as mathematical values.
pub enum DispatchView {
    Acknowledge,
    Render { template_name: Seq<char>, content_type: Seq<char> },
}

impl View for Dispatch {
    type V = DispatchView;

    open spec fn view(&self) -> DispatchView {
        match self {
            Dispatch::Acknowledge => DispatchView::Acknowledge,
            Dispatch::Render { template_name, content_type } => DispatchView::Render {
                template_name: template_name@,
                content_type: content_type@,
            },
        }
    }
}

/// The answer for a request whose path has the rule `rule`, given both methods in upper
/// case: the rule's template where they are equal, the acknowledgement where not.
pub open spec fn decided(rule: RuleView, inbound_upper: Seq<char>, rule_upper: Seq<char>) -> DispatchView {
    if inbound_upper == rule_upper {
        DispatchView::Render {
            template_name: rule.template_name,
            content_type: content_type_of(rule),
        }
    } else {
        DispatchView::Acknowledge
    }
}

/// The answer for a request with the given method and path under the given routes.
pub open spec fn dispatched(
    method: Seq<char>,
    path: Seq<char>,
    routes: Option<Map<Seq<char>, RouteRule>>,
) -> DispatchView {
    match routes {
        Some(table) => if table.contains_key(path) {
            decided(table[path]@, uppercase(method), uppercase(table[path].method@))
        } else {
            DispatchView::Acknowledge
        },
        None => DispatchView::Acknowledge,
    }
}

/// Chooses the answer for a request that matched `rule` by path, given the request's
/// method and the rule's method, both in upper case.
pub fn decide(rule: &RouteRule, inbound_upper: &String, rule_upper: &String) -> (choice: Dispatch)
    ensures
        choice@ == decided(rule@, inbound_upper@, rule_upper@),
{
    if *inbound_upper == *rule_upper {
        let content_type = match &rule.content_type {
            Some(t) => t.clone(),
            None => String::from_str(DEFAULT_CONTENT_TYPE),
        };
        Dispatch::Render { template_name: rule.template_name.clone(), content_type }
    } else {
        Dispatch::Acknowledge
    }
}

/// The table held in an optional route table.
pub open spec fn routes_view(routes: Option<RouteTable>) -> Option<Map<Seq<char>, RouteRule>> {
    match routes {
        Some(table) => Some(table@),
        None => None,
    }
}

/// Chooses the answer for a captured request: the template of the rule registered for
/// its path, if there is one and its method is the request's without regard to case;
/// otherwise the generic acknowledgement.
pub fn dispatch(record: &CapturedRequest, routes: &Option<RouteTable>) -> (choice: Dispatch)
    ensures
        choice@ == dispatched(record.method@, record.path@, routes_view(*routes)),
{
    match routes {
        Some(table) => match table.lookup(record.path.as_str()) {
            Some(rule) => {
                let inbound_upper = to_uppercase(record.method.as_str());
                let rule_upper = to_uppercase(rule.method.as_str());
                decide(rule, &inbound_upper, &rule_upper)
            },
            None => Dispatch::Acknowledge,
        },
        None => Dispatch::Acknowledge,
    }
}

} // verus!
