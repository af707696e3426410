use vstd::prelude::*;
use crate::model::copy_opt;
use crate::text::str_eq;

verus! {

/// The project structure: the endpoints and their routes.
pub struct ProjectConfig {
    pub endpoints: Vec<Endpoint>,
}

/// The formats in which a project configuration can be written out.
pub enum ConfigFormat {
    Json,
    Yaml,
    Both,
}

/// Defines an endpoint in the project structure.
pub struct Endpoint {
    pub id: String,
    pub routes: Vec<RouteHandler>,
}

/// A route together with the handler that serves it, if one was found.
pub struct RouteHandler {
    pub method: String,
    pub path: String,
    pub handler: Option<Handler>,
    pub middleware: Option<Vec<String>>,
    pub service: Option<String>,
}

/// Intermediary struct for capturing setup functions.
pub struct Route {
    /// The HTTP method for the route
    pub method: String,
    /// The name of the designated handler for the route
    pub handler_name: String,
    /// The path to the resource
    pub path: String,
    /// The middleware wrapped around the route, if any
    pub middleware: Option<Vec<String>>,
    pub service: Option<String>,
}

/// Intermediary struct for capturing all handler functions.
pub struct Handler {
    pub name: String,
    pub inputs: Vec<HandlerInput>,
    pub bound: Option<String>,
}

/// One argument of a handler: how it is extracted and what it holds.
pub struct HandlerInput {
    pub ext_type: String,
    pub data_type: String,
}

/// A data structure used by handlers.
pub struct Data {
    pub wrapper_id: String,
    /// The struct's fields
    pub fields: Vec<Field>,
}

/// A field of a data structure.
pub struct Field {
    pub name: String,
    pub ty: String,
    pub required: bool,
    pub validation: Option<String>,
}

/// The kinds of request extractors a handler input may use.
#[derive(PartialEq, Eq, Structural, Clone, Copy, Debug)]
pub enum Extractor {
    Path,
    Query,
    Json,
    Form,
    Request,
    String,
    Bytes,
    Payload,
    Data,
    Invalid,
}

/// The extractor that a name denotes: the lower-case and the capitalised
/// spelling of each kind (and `HttpRequest` for `Request`); anything else is
/// `Invalid`.
pub open spec fn extractor_of(s: Seq<char>) -> Extractor {
    if s == "path"@ || s == "Path"@ {
        Extractor::Path
    } else if s == "query"@ || s == "Query"@ {
        Extractor::Query
    } else if s == "json"@ || s == "Json"@ {
        Extractor::Json
    } else if s == "form"@ || s == "Form"@ {
        Extractor::Form
    } else if s == "request"@ || s == "Request"@ || s == "HttpRequest"@ {
        Extractor::Request
    } else if s == "string"@ || s == "String"@ {
        Extractor::String
    } else if s == "bytes"@ || s == "Bytes"@ {
        Extractor::Bytes
    } else if s == "payload"@ || s == "Payload"@ {
        Extractor::Payload
    } else if s == "data"@ || s == "Data"@ {
        Extractor::Data
    } else {
        Extractor::Invalid
    }
}

fn is_either(s: &str, a: &str, b: &str) -> (r: bool)
    ensures
        r == (s@ == a@ || s@ == b@),
{
    str_eq(s, a) || str_eq(s, b)
}

impl From<String> for Extractor {
    fn from(s: String) -> (r: Extractor)
        ensures
            r == extractor_of(s@),
    {
        let t = s.as_str();
        if is_either(t, "path", "Path") {
            Extractor::Path
        } else if is_either(t, "query", "Query") {
            Extractor::Query
        } else if is_either(t, "json", "Json") {
            Extractor::Json
        } else if is_either(t, "form", "Form") {
            Extractor::Form
        } else if is_either(t, "request", "Request") || str_eq(t, "HttpRequest") {
            Extractor::Request
        } else if is_either(t, "string", "String") {
            Extractor::String
        } else if is_either(t, "bytes", "Bytes") {
            Extractor::Bytes
        } else if is_either(t, "payload", "Payload") {
            Extractor::Payload
        } else if is_either(t, "data", "Data") {
            Extractor::Data
        } else {
            Extractor::Invalid
        }
    }
}

impl vstd::std_specs::convert::FromSpecImpl<String> for Extractor {
    open spec fn obeys_from_spec() -> bool {
        true
    }

    open spec fn from_spec(s: String) -> Extractor {
        extractor_of(s@)
    }
}

/// The characters of each string in a list.
pub open spec fn strings_view(v: Seq<String>) -> Seq<Seq<char>> {
    v.map_values(|s: String| s@)
}

/// The characters of an optional string.
pub open spec fn opt_view(o: Option<String>) -> Option<Seq<char>> {
    match o {
        Some(s) => Some(s@),
        None => None,
    }
}

/// The characters of an optional list of strings.
pub open spec fn opt_strings_view(o: Option<Vec<String>>) -> Option<Seq<Seq<char>>> {
    match o {
        Some(v) => Some(strings_view(v@)),
        None => None,
    }
}

impl HandlerInput {
    pub open spec fn view_pair(self) -> (Seq<char>, Seq<char>) {
        (self.ext_type@, self.data_type@)
    }
}

impl Handler {
    /// A handler as plain values: its name, its inputs and its bound.
    pub open spec fn model(self) -> (Seq<char>, Seq<(Seq<char>, Seq<char>)>, Option<Seq<char>>) {
        (
            self.name@,
            self.inputs@.map_values(|i: HandlerInput| i.view_pair()),
            opt_view(self.bound),
        )
    }

    /// A copy of this handler, field by field.
    pub fn duplicate(&self) -> (r: Handler)
        ensures
            r.model() == self.model(),
    {
        let mut inputs: Vec<HandlerInput> = Vec::new();
        let mut i: usize = 0;
        while i < self.inputs.len()
            invariant
                i <= self.inputs@.len(),
                inputs@.len() == i,
                forall|j: int| 0 <= j < i ==> #[trigger] inputs@[j].view_pair() == self.inputs@[j].view_pair(),
            decreases self.inputs@.len() - i,
        {
            let input = &self.inputs[i];
            inputs.push(HandlerInput { ext_type: input.ext_type.clone(), data_type: input.data_type.clone() });
            i = i + 1;
        }
        let r = Handler { name: self.name.clone(), inputs, bound: copy_opt(&self.bound) };
        assert(r.inputs@.map_values(|i: HandlerInput| i.view_pair())
            =~= self.inputs@.map_values(|i: HandlerInput| i.view_pair()));
        r
    }
}

/// A copy of a list of strings.
pub fn copy_strings(v: &Vec<String>) -> (r: Vec<String>)
    ensures
        strings_view(r@) == strings_view(v@),
{
    let mut r: Vec<String> = Vec::new();
    let mut i: usize = 0;
    while i < v.len()
        invariant
            i <= v@.len(),
            r@.len() == i,
            forall|j: int| 0 <= j < i ==> #[trigger] r@[j]@ == v@[j]@,
        decreases v@.len() - i,
    {
        r.push(v[i].clone());
        i = i + 1;
    }
    assert(strings_view(r@) =~= strings_view(v@));
    r
}

/// A copy of an optional list of strings.
pub fn copy_opt_strings(o: &Option<Vec<String>>) -> (r: Option<Vec<String>>)
    ensures
        opt_strings_view(r) == opt_strings_view(*o),
{
    match o {
        Some(v) => Some(copy_strings(v)),
        None => None,
    }
}

/// The route handler that a route and its handler, if any, make: the route's
/// method, path, middleware and service, and a copy of the handler.
pub open spec fn route_handler_matches(rh: RouteHandler, r: Route, h: Option<Handler>) -> bool {
    &&& rh.method@ == r.method@
    &&& rh.path@ == r.path@
    &&& opt_strings_view(rh.middleware) == opt_strings_view(r.middleware)
    &&& opt_view(rh.service) == opt_view(r.service)
    &&& match (rh.handler, h) {
        (Some(a), Some(b)) => a.model() == b.model(),
        (None, None) => true,
        _ => false,
    }
}

/// The handler a route handler is made with, as an owned value.
pub open spec fn handler_of(h: Option<&Handler>) -> Option<Handler> {
    match h {
        Some(x) => Some(*x),
        None => None,
    }
}

impl<'a> From<(&'a Route, Option<&'a Handler>)> for RouteHandler {
    /// Pairs a route with the handler that serves it.
    fn from(p: (&'a Route, Option<&'a Handler>)) -> (rh: RouteHandler)
        ensures
            route_handler_matches(rh, *p.0, handler_of(p.1)),
    {
        let (r, h) = p;
        let handler = match h {
            Some(x) => Some(x.duplicate()),
            None => None,
        };
        RouteHandler {
            method: r.method.clone(),
            path: r.path.clone(),
            handler,
            middleware: copy_opt_strings(&r.middleware),
            service: copy_opt(&r.service),
        }
    }
}

/// A route handler holds copies of its sources' strings, equal to them as
/// plain values (see `route_handler_matches`), so no single value is
/// promised here.
impl<'a> vstd::std_specs::convert::FromSpecImpl<(&'a Route, Option<&'a Handler>)> for RouteHandler {
    open spec fn obeys_from_spec() -> bool {
        false
    }

    open spec fn from_spec(p: (&'a Route, Option<&'a Handler>)) -> RouteHandler {
        arbitrary()
    }
}

} // verus!
