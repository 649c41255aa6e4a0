//! The route table: the static list of route descriptors of one worker,
//! compiled into a `matchit` router.
//!
//! The path-matching algorithm is the router's. What this module proves is
//! the bookkeeping around it: which descriptor a match stands for, that a
//! rejected registration leaves the table as it was, and that a table is
//! built from a list of descriptors exactly when the router takes each of
//! them in turn.

use crate::err::BeakError;
use vstd::prelude::*;
use vstd::utf8::encode_utf8;

verus! {

/// `matchit::Router`, the route matcher. It is opaque here: all that is
/// known of a router is what the trusted items of this module say.
#[verifier::external_type_specification]
#[verifier::external_body]
#[verifier::reject_recursive_types(T)]
pub struct ExRouter<T>(matchit::Router<T>);

/// The most parameter slots that a pattern may open. One more and the router
/// would run out of the names it gives to parameters internally.
pub const MAX_ROUTE_PARAMETERS: usize = 25;

/// Why a pattern is refused.
#[derive(Clone, Copy, Debug, PartialEq, Eq, Structural)]
pub enum PatternFault {
    /// The pattern collides with a registered one.
    Conflict,
    /// More than one parameter in one path segment.
    InvalidParamSegment,
    /// A parameter without a valid name or with unbalanced braces.
    InvalidParam,
    /// A catch-all parameter that is not at the end of the pattern.
    InvalidCatchAll,
    /// More than [`MAX_ROUTE_PARAMETERS`] opening braces.
    TooManyParameters,
    /// A fault that the router reports and this crate does not know.
    Unknown,
}

/// The insertions that a router has seen: each route that `insert` was
/// called with, with its value, in the order of the calls. A router on
/// which no insertion failed holds exactly these routes.
pub uninterp spec fn router_routes(r: matchit::Router<usize>) -> Seq<(Seq<char>, usize)>;

/// The fault with which a router that has seen the insertions `routes`
/// refuses `route`, or `None` where it takes the route.
pub uninterp spec fn insert_fault(routes: Seq<(Seq<char>, usize)>, route: Seq<char>) -> Option<
    PatternFault,
>;

/// What a router that has seen the insertions `routes` finds for `path`:
/// the value of the matched route and the path parameters as pairs of name
/// and value, in the order of the pattern's slots.
pub uninterp spec fn route_match(routes: Seq<(Seq<char>, usize)>, path: Seq<char>) -> Option<
    (usize, Seq<(Seq<char>, Seq<char>)>),
>;

/// How often the byte `b` occurs in `s`.
pub open spec fn byte_count(s: Seq<u8>, b: u8) -> nat
    decreases s.len(),
{
    if s.len() == 0 {
        0
    } else {
        byte_count(s.drop_last(), b) + if s.last() == b {
            1nat
        } else {
            0nat
        }
    }
}

/// The number of opening braces in a pattern.
pub open spec fn open_brace_count(pattern: Seq<char>) -> nat {
    byte_count(encode_utf8(pattern), 0x7b)
}

/// A literal pattern holds no brace, so it has no parameter slot and no
/// escaped character.
pub open spec fn is_literal(pattern: Seq<char>) -> bool {
    let bytes = encode_utf8(pattern);
    forall|i: int| 0 <= i < bytes.len() ==> bytes[i] != 0x7b && #[trigger] bytes[i] != 0x7d
}

/// Whether `route` is one of `routes`.
pub open spec fn holds_route(routes: Seq<(Seq<char>, usize)>, route: Seq<char>) -> bool {
    exists|i: int| 0 <= i < routes.len() && (#[trigger] routes[i]).0 == route
}

/// No insertion of `routes` failed: each route was taken by the router
/// that had seen the insertions before it.
pub open spec fn cleanly_built(routes: Seq<(Seq<char>, usize)>) -> bool {
    forall|i: int|
        0 <= i < routes.len() ==> insert_fault(#[trigger] routes.take(i), routes[i].0) is None
}

/// The insertions of a new router: none.
pub open spec fn no_routes() -> Seq<(Seq<char>, usize)> {
    Seq::empty()
}

/// The parameters of a match on a pattern without slots.
pub open spec fn no_params() -> Seq<(Seq<char>, Seq<char>)> {
    Seq::empty()
}

/// The refusal of a pattern for the given fault.
pub open spec fn refusal(fault: PatternFault) -> Result<(), PatternFault> {
    Err(fault)
}

/// Makes an empty router with `matchit::Router::new`.
///
/// Trusted: the new router has seen no insertion.
#[verifier::external_body]
fn router_new() -> (router: matchit::Router<usize>)
    ensures
        router_routes(router) == no_routes(),
{
    matchit::Router::new()
}

/// Inserts a route with `matchit::Router::insert`.
///
/// Trusted: whether the router takes the route, and with which fault it
/// refuses it, depends on the insertions it has seen and on the new route
/// alone. A route that was taken comes after the others. Of the router
/// after a refusal nothing is said, because `insert` may have changed the
/// tree before it gave up. A router on which no insertion failed refuses a
/// literal route that it holds already, as a conflict.
/// The bound on the braces keeps out the patterns on which `insert` panics
/// for want of parameter names.
#[verifier::external_body]
fn router_insert(router: &mut matchit::Router<usize>, route: &str, value: usize) -> (res: Result<
    (),
    PatternFault,
>)
    requires
        open_brace_count(route@) <= MAX_ROUTE_PARAMETERS,
    ensures
        res is Ok <==> insert_fault(router_routes(*old(router)), route@) is None,
        res matches Err(fault) ==> insert_fault(router_routes(*old(router)), route@) == Some(
            fault,
        ),
        res is Ok ==> router_routes(*final(router)) == router_routes(*old(router)).push(
            (route@, value),
        ),
        cleanly_built(router_routes(*old(router))) && is_literal(route@) && holds_route(
            router_routes(*old(router)),
            route@,
        ) ==> res == refusal(PatternFault::Conflict),
{
    match router.insert(route, value) {
        Ok(()) => Ok(()),
        Err(matchit::InsertError::Conflict { .. }) => Err(PatternFault::Conflict),
        Err(matchit::InsertError::InvalidParamSegment) => Err(PatternFault::InvalidParamSegment),
        Err(matchit::InsertError::InvalidParam) => Err(PatternFault::InvalidParam),
        Err(matchit::InsertError::InvalidCatchAll) => Err(PatternFault::InvalidCatchAll),
        Err(_) => Err(PatternFault::Unknown),
    }
}

/// Looks a path up with `matchit::Router::at` and copies the value and the
/// parameters of the match.
///
/// Trusted: the result depends on the insertions that the router has seen
/// and on the path alone, and the value found is one that was inserted. In
/// a router on which no insertion failed, the path that equals a literal
/// route matches that route, with no parameters: static segments go before
/// dynamic ones.
#[verifier::external_body]
fn router_at(router: &matchit::Router<usize>, path: &str) -> (res: Option<
    (usize, Vec<(String, String)>),
>)
    ensures
        res.deep_view() == route_match(router_routes(*router), path@),
        res matches Some(found) ==> exists|i: int|
            0 <= i < router_routes(*router).len() && (#[trigger] router_routes(*router)[i]).1
                == found.0,
        cleanly_built(router_routes(*router)) ==> forall|i: int|
            0 <= i < router_routes(*router).len() && is_literal(
                (#[trigger] router_routes(*router)[i]).0,
            ) && router_routes(*router)[i].0 == path@ ==> res.deep_view() == Some(
                (router_routes(*router)[i].1, no_params()),
            ),
{
    match router.at(path) {
        Ok(found) => Some(
            (
                *found.value,
                found.params.iter().map(|(k, v)| (k.to_string(), v.to_string())).collect(),
            ),
        ),
        Err(_) => None,
    }
}

/// One route as it is registered: its pattern and whether its handler wants
/// a body part. The handler itself is known by the position of the
/// descriptor in the table.
#[derive(Debug)]
pub struct RouteDescriptor {
    pub path_pattern: String,
    pub needs_body_part: bool,
}

/// The mathematical content of a [`RouteDescriptor`].
pub ghost struct RouteSpec {
    pub pattern: Seq<char>,
    pub needs_body_part: bool,
}

impl View for RouteDescriptor {
    type V = RouteSpec;

    open spec fn view(&self) -> RouteSpec {
        RouteSpec { pattern: self.path_pattern@, needs_body_part: self.needs_body_part }
    }
}

/// The contents of a list of descriptors.
pub open spec fn specs_of(descriptors: Seq<RouteDescriptor>) -> Seq<RouteSpec> {
    descriptors.map_values(|d: RouteDescriptor| d@)
}

/// What the router of a table with these routes holds: each pattern, with
/// the position of its descriptor as the value.
pub open spec fn entries_of(routes: Seq<RouteSpec>) -> Seq<(Seq<char>, usize)> {
    Seq::new(routes.len(), |i: int| (routes[i].pattern, i as usize))
}

/// The fault for which a table that holds `routes` refuses `pattern`, or
/// `None` where it takes the pattern.
pub open spec fn pattern_fault(routes: Seq<RouteSpec>, pattern: Seq<char>) -> Option<
    PatternFault,
> {
    if open_brace_count(pattern) > MAX_ROUTE_PARAMETERS {
        Some(PatternFault::TooManyParameters)
    } else {
        insert_fault(entries_of(routes), pattern)
    }
}

/// Each route of the list is taken by the table of the routes before it.
pub open spec fn admissible(routes: Seq<RouteSpec>) -> bool {
    forall|i: int|
        0 <= i < routes.len() ==> pattern_fault(#[trigger] routes.take(i), routes[i].pattern)
            is None
}

/// Whether one of `routes` has the pattern `pattern`.
pub open spec fn has_pattern(routes: Seq<RouteSpec>, pattern: Seq<char>) -> bool {
    exists|i: int| 0 <= i < routes.len() && (#[trigger] routes[i]).pattern == pattern
}

/// The error with which a pattern is rejected for the given fault.
pub open spec fn rejection(pattern: String, fault: PatternFault) -> BeakError {
    if fault == PatternFault::Conflict {
        BeakError::DuplicatePattern(pattern)
    } else {
        BeakError::InvalidPattern(pattern, fault)
    }
}

/// The outcome of a registration of `pattern` that met the given fault.
pub open spec fn rejected(pattern: String, fault: Option<PatternFault>) -> Result<(), BeakError> {
    match fault {
        Some(fault) => Err(rejection(pattern, fault)),
        None => Ok(()),
    }
}

proof fn lemma_entries_take(routes: Seq<RouteSpec>, i: int)
    requires
        0 <= i <= routes.len(),
    ensures
        entries_of(routes).take(i) == entries_of(routes.take(i)),
{
}

proof fn lemma_entries_push(routes: Seq<RouteSpec>, route: RouteSpec)
    requires
        routes.len() < usize::MAX,
    ensures
        entries_of(routes.push(route)) == entries_of(routes).push(
            (route.pattern, routes.len() as usize),
        ),
{
    assert(entries_of(routes.push(route)) =~= entries_of(routes).push(
        (route.pattern, routes.len() as usize),
    ));
}

proof fn lemma_admissible_is_cleanly_built(routes: Seq<RouteSpec>)
    requires
        admissible(routes),
    ensures
        cleanly_built(entries_of(routes)),
{
    let entries = entries_of(routes);
    assert forall|i: int| 0 <= i < entries.len() implies insert_fault(
        #[trigger] entries.take(i),
        entries[i].0,
    ) is None by {
        lemma_entries_take(routes, i);
    }
}

proof fn lemma_absent_byte_counts_zero(s: Seq<u8>, b: u8)
    requires
        forall|i: int| 0 <= i < s.len() ==> s[i] != b,
    ensures
        byte_count(s, b) == 0,
    decreases s.len(),
{
    if s.len() > 0 {
        lemma_absent_byte_counts_zero(s.drop_last(), b);
    }
}

/// A literal pattern opens no parameter slot.
pub proof fn lemma_literal_has_no_slot(pattern: Seq<char>)
    requires
        is_literal(pattern),
    ensures
        open_brace_count(pattern) == 0,
{
    lemma_absent_byte_counts_zero(encode_utf8(pattern), 0x7b);
}

/// Counts the opening braces of a pattern.
pub fn count_open_braces(pattern: &str) -> (n: usize)
    ensures
        n == open_brace_count(pattern@),
{
    let bytes = pattern.as_bytes();
    let mut n: usize = 0;
    let mut i: usize = 0;
    while i < bytes.len()
        invariant
            i <= bytes.len(),
            n == byte_count(bytes@.take(i as int), 0x7b),
            n <= i,
        decreases bytes.len() - i,
    {
        proof {
            assert(bytes@.take(i + 1).drop_last() =~= bytes@.take(i as int));
        }
        if bytes[i] == 0x7b {
            n += 1;
        }
        i += 1;
    }
    proof {
        assert(bytes@.take(i as int) =~= bytes@);
    }
    n
}

/// The path parameters of a match: pairs of name and value, in the order of
/// the pattern's slots.
#[derive(Debug)]
pub struct PathParams {
    entries: Vec<(String, String)>,
}

/// The value of the first pair of `params` whose name is `key`.
pub open spec fn first_value(params: Seq<(Seq<char>, Seq<char>)>, key: Seq<char>) -> Option<
    Seq<char>,
>
    decreases params.len(),
{
    if params.len() == 0 {
        None
    } else if params[0].0 == key {
        Some(params[0].1)
    } else {
        first_value(params.drop_first(), key)
    }
}

/// The content of an optional string slice.
pub open spec fn text_of(s: Option<&str>) -> Option<Seq<char>> {
    match s {
        Some(s) => Some(s@),
        None => None,
    }
}

impl View for PathParams {
    type V = Seq<(Seq<char>, Seq<char>)>;

    closed spec fn view(&self) -> Seq<(Seq<char>, Seq<char>)> {
        self.entries.deep_view()
    }
}

impl PathParams {
    /// The parameters made of the given pairs of name and value.
    pub fn from_pairs(pairs: Vec<(String, String)>) -> (params: PathParams)
        ensures
            params@ == pairs.deep_view(),
    {
        PathParams { entries: pairs }
    }

    /// The number of parameters.
    pub fn len(&self) -> (n: usize)
        ensures
            n == self@.len(),
    {
        self.entries.len()
    }

    /// Whether there is no parameter.
    pub fn is_empty(&self) -> (b: bool)
        ensures
            b == (self@.len() == 0),
    {
        self.entries.len() == 0
    }

    /// The name of the parameter at position `i`.
    pub fn name_at(&self, i: usize) -> (name: &str)
        requires
            i < self@.len(),
        ensures
            name@ == self@[i as int].0,
    {
        self.entries[i].0.as_str()
    }

    /// The value of the parameter at position `i`.
    pub fn value_at(&self, i: usize) -> (value: &str)
        requires
            i < self@.len(),
        ensures
            value@ == self@[i as int].1,
    {
        self.entries[i].1.as_str()
    }

    /// The value of the first parameter with the given name.
    pub fn get(&self, key: &str) -> (value: Option<&str>)
        ensures
            text_of(value) == first_value(self@, key@),
    {
        let wanted = key.to_owned();
        let mut i: usize = 0;
        proof {
            assert(self@.skip(0) =~= self@);
        }
        while i < self.entries.len()
            invariant
                i <= self.entries.len(),
                wanted@ == key@,
                first_value(self@, key@) == first_value(self@.skip(i as int), key@),
            decreases self.entries.len() - i,
        {
            proof {
                assert(self@.skip(i as int).drop_first() =~= self@.skip(i + 1));
            }
            if self.entries[i].0 == wanted {
                return Some(self.entries[i].1.as_str());
            }
            i += 1;
        }
        None
    }
}

/// The result of resolving a path: the position of the matched descriptor,
/// which is the position of its handler, the descriptor's body requirement,
/// and the path parameters.
#[derive(Debug)]
pub struct MatchedRoute {
    pub route: usize,
    pub needs_body_part: bool,
    pub params: PathParams,
}

/// The mathematical content of a [`MatchedRoute`].
pub ghost struct MatchedSpec {
    pub route: usize,
    pub needs_body_part: bool,
    pub params: Seq<(Seq<char>, Seq<char>)>,
}

impl View for MatchedRoute {
    type V = MatchedSpec;

    open spec fn view(&self) -> MatchedSpec {
        MatchedSpec {
            route: self.route,
            needs_body_part: self.needs_body_part,
            params: self.params@,
        }
    }
}

/// The content of an optional match.
pub open spec fn matched_view(m: Option<MatchedRoute>) -> Option<MatchedSpec> {
    match m {
        Some(m) => Some(m@),
        None => None,
    }
}

/// What a table with the given routes resolves `path` to.
pub open spec fn resolution(routes: Seq<RouteSpec>, path: Seq<char>) -> Option<MatchedSpec> {
    match route_match(entries_of(routes), path) {
        Some((route, params)) => Some(
            MatchedSpec {
                route,
                needs_body_part: routes[route as int].needs_body_part,
                params,
            },
        ),
        None => None,
    }
}

/// The match of the literal route at position `i` on its own path.
pub open spec fn literal_match(routes: Seq<RouteSpec>, i: int) -> MatchedSpec {
    MatchedSpec {
        route: i as usize,
        needs_body_part: routes[i].needs_body_part,
        params: no_params(),
    }
}

/// The position of the first route that is refused when the routes are
/// registered in order, or `None` where all are taken.
pub open spec fn first_refused(routes: Seq<RouteSpec>) -> Option<int>
    decreases routes.len(),
{
    if routes.len() == 0 {
        None
    } else {
        match first_refused(routes.drop_last()) {
            Some(i) => Some(i),
            None => if pattern_fault(routes.drop_last(), routes.last().pattern) is Some {
                Some(routes.len() - 1)
            } else {
                None
            },
        }
    }
}

/// The outcome of building a table from `descriptors`: success, or the
/// rejection of the first descriptor that is refused.
pub open spec fn build_outcome(descriptors: Seq<RouteDescriptor>) -> Result<(), BeakError> {
    let routes = specs_of(descriptors);
    match first_refused(routes) {
        Some(i) => rejected(
            descriptors[i].path_pattern,
            pattern_fault(routes.take(i), routes[i].pattern),
        ),
        None => Ok(()),
    }
}

/// All routes are taken exactly when none is the first to be refused.
pub proof fn lemma_admissible_iff_none_refused(routes: Seq<RouteSpec>)
    ensures
        admissible(routes) <==> first_refused(routes) is None,
        first_refused(routes) matches Some(i) ==> 0 <= i < routes.len() && admissible(
            routes.take(i),
        ) && pattern_fault(routes.take(i), routes[i].pattern) is Some,
    decreases routes.len(),
{
    if routes.len() > 0 {
        let front = routes.drop_last();
        lemma_admissible_iff_none_refused(front);
        if admissible(routes) {
            assert forall|i: int| 0 <= i < front.len() implies pattern_fault(
                #[trigger] front.take(i),
                front[i].pattern,
            ) is None by {
                assert(front.take(i) =~= routes.take(i));
            }
        }
        match first_refused(front) {
            Some(i) => {
                assert(front.take(i) =~= routes.take(i));
            },
            None => {
                if pattern_fault(front, routes.last().pattern) is None {
                    assert forall|i: int| 0 <= i < routes.len() implies pattern_fault(
                        #[trigger] routes.take(i),
                        routes[i].pattern,
                    ) is None by {
                        if i < front.len() {
                            assert(front.take(i) =~= routes.take(i));
                        }
                    }
                }
            },
        }
    }
}

proof fn lemma_first_refused_stays(routes: Seq<RouteSpec>, k: int)
    requires
        0 <= k <= routes.len(),
        first_refused(routes.take(k)) is Some,
    ensures
        first_refused(routes) == first_refused(routes.take(k)),
    decreases routes.len() - k,
{
    if k < routes.len() {
        assert(routes.take(k + 1).drop_last() =~= routes.take(k));
        lemma_first_refused_stays(routes, k + 1);
    } else {
        assert(routes.take(k) =~= routes);
    }
}

/// The route table of one worker.
pub struct RouteTable {
    router: matchit::Router<usize>,
    descriptors: Vec<RouteDescriptor>,
}

impl View for RouteTable {
    type V = Seq<RouteSpec>;

    closed spec fn view(&self) -> Seq<RouteSpec> {
        specs_of(self.descriptors@)
    }
}

/// Compiles the router of a list of descriptors of which each is taken
/// after those before it.
fn compile(descriptors: &Vec<RouteDescriptor>) -> (router: matchit::Router<usize>)
    requires
        admissible(specs_of(descriptors@)),
    ensures
        router_routes(router) == entries_of(specs_of(descriptors@)),
{
    let ghost routes = specs_of(descriptors@);
    let mut router = router_new();
    let mut k: usize = 0;
    while k < descriptors.len()
        invariant
            k <= descriptors.len(),
            routes == specs_of(descriptors@),
            admissible(routes),
            router_routes(router) == entries_of(routes.take(k as int)),
        decreases descriptors.len() - k,
    {
        proof {
            lemma_entries_push(routes.take(k as int), routes[k as int]);
        }
        let taken = router_insert(&mut router, descriptors[k].path_pattern.as_str(), k);
        assert(taken is Ok);
        k += 1;
    }
    router
}

impl RouteTable {
    /// The invariant of a table: its router holds the patterns of its
    /// descriptors, each under the position of the descriptor, and each
    /// descriptor was taken after those before it.
    pub closed spec fn wf(&self) -> bool {
        &&& router_routes(self.router) == entries_of(self@)
        &&& admissible(self@)
    }

    /// A table without routes.
    pub fn new() -> (table: RouteTable)
        ensures
            table.wf(),
            table@.len() == 0,
    {
        let table = RouteTable { router: router_new(), descriptors: Vec::new() };
        proof {
            assert(entries_of(table@) =~= no_routes());
        }
        table
    }

    /// The number of registered routes.
    pub fn len(&self) -> (n: usize)
        ensures
            n == self@.len(),
    {
        self.descriptors.len()
    }

    /// The descriptor registered at position `i`.
    pub fn descriptor(&self, i: usize) -> (d: &RouteDescriptor)
        requires
            i < self@.len(),
        ensures
            d@ == self@[i as int],
    {
        &self.descriptors[i]
    }

    /// Registers a route at the end of the table.
    ///
    /// The route is taken unless its pattern has a fault, which is then
    /// reported: a collision with a registered pattern as
    /// `DuplicatePattern`, any other fault as `InvalidPattern`. A rejected
    /// registration leaves the table as it was. In particular a literal
    /// pattern that is registered already is rejected as a duplicate, and
    /// the first registration stays in force.
    pub fn register(&mut self, descriptor: RouteDescriptor) -> (res: Result<(), BeakError>)
        requires
            old(self).wf(),
        ensures
            final(self).wf(),
            res is Ok <==> pattern_fault(old(self)@, descriptor@.pattern) is None,
            res is Ok ==> final(self)@ == old(self)@.push(descriptor@),
            res is Err ==> final(self)@ == old(self)@,
            res is Err ==> res == rejected(
                descriptor.path_pattern,
                pattern_fault(old(self)@, descriptor@.pattern),
            ),
            is_literal(descriptor@.pattern) && has_pattern(old(self)@, descriptor@.pattern)
                ==> res == rejected(descriptor.path_pattern, Some(PatternFault::Conflict)),
    {
        let braces = count_open_braces(descriptor.path_pattern.as_str());
        if braces > MAX_ROUTE_PARAMETERS {
            proof {
                if is_literal(descriptor@.pattern) {
                    lemma_literal_has_no_slot(descriptor@.pattern);
                }
            }
            return Err(
                BeakError::InvalidPattern(
                    descriptor.path_pattern,
                    PatternFault::TooManyParameters,
                ),
            );
        }
        let index = self.descriptors.len();
        proof {
            lemma_admissible_is_cleanly_built(self@);
            if has_pattern(self@, descriptor@.pattern) {
                let i = choose|i: int|
                    0 <= i < self@.len() && (#[trigger] self@[i]).pattern == descriptor@.pattern;
                assert(entries_of(self@)[i].0 == descriptor@.pattern);
            }
        }
        match router_insert(&mut self.router, descriptor.path_pattern.as_str(), index) {
            Ok(()) => {
                let ghost before = self@;
                let ghost route = descriptor@;
                self.descriptors.push(descriptor);
                proof {
                    let grown = before.push(route);
                    assert(self@ =~= grown);
                    assert(self.descriptors@.len() == self.descriptors.len());
                    lemma_entries_push(before, route);
                    assert forall|i: int| 0 <= i < grown.len() implies pattern_fault(
                        #[trigger] grown.take(i),
                        grown[i].pattern,
                    ) is None by {
                        if i < before.len() {
                            assert(grown.take(i) =~= before.take(i));
                        } else {
                            assert(grown.take(i) =~= before);
                        }
                    }
                }
                Ok(())
            },
            Err(fault) => {
                self.router = compile(&self.descriptors);
                if fault == PatternFault::Conflict {
                    Err(BeakError::DuplicatePattern(descriptor.path_pattern))
                } else {
                    Err(BeakError::InvalidPattern(descriptor.path_pattern, fault))
                }
            },
        }
    }

    /// Builds the table of a list of descriptors by registering them in
    /// order. The first descriptor that is refused ends the construction
    /// with its rejection.
    pub fn build(descriptors: &[RouteDescriptor]) -> (res: Result<RouteTable, BeakError>)
        ensures
            res is Ok <==> admissible(specs_of(descriptors@)),
            res matches Ok(table) ==> table.wf() && table@ == specs_of(descriptors@),
            res matches Err(e) ==> build_outcome(descriptors@) == Err::<(), BeakError>(e),
    {
        let ghost routes = specs_of(descriptors@);
        let mut table = RouteTable::new();
        let mut k: usize = 0;
        while k < descriptors.len()
            invariant
                k <= descriptors.len(),
                routes == specs_of(descriptors@),
                table.wf(),
                table@ == routes.take(k as int),
                admissible(routes.take(k as int)),
            decreases descriptors.len() - k,
        {
            let descriptor = RouteDescriptor {
                path_pattern: descriptors[k].path_pattern.clone(),
                needs_body_part: descriptors[k].needs_body_part,
            };
            proof {
                assert(routes.take(k + 1).drop_last() =~= routes.take(k as int));
                lemma_admissible_iff_none_refused(routes.take(k as int));
                lemma_admissible_iff_none_refused(routes.take(k + 1));
            }
            match table.register(descriptor) {
                Ok(()) => {},
                Err(e) => {
                    proof {
                        lemma_first_refused_stays(routes, k + 1);
                        lemma_admissible_iff_none_refused(routes);
                    }
                    return Err(e);
                },
            }
            k += 1;
        }
        proof {
            assert(routes.take(k as int) =~= routes);
        }
        Ok(table)
    }

    /// Resolves a request path.
    ///
    /// The result is the router's: `None` where no pattern matches, else
    /// the position and the body requirement of the matched descriptor and
    /// the path parameters. The path that equals a registered literal
    /// pattern resolves to that pattern's descriptor, with no parameters.
    pub fn resolve(&self, path: &str) -> (res: Option<MatchedRoute>)
        requires
            self.wf(),
        ensures
            matched_view(res) == resolution(self@, path@),
            res matches Some(m) ==> m.route < self@.len(),
            forall|i: int|
                0 <= i < self@.len() && is_literal((#[trigger] self@[i]).pattern) && self@[i].pattern
                    == path@ ==> matched_view(res) == Some(literal_match(self@, i)),
    {
        proof {
            assert(self.descriptors@.len() == self.descriptors.len());
            lemma_admissible_is_cleanly_built(self@);
        }
        let found = router_at(&self.router, path);
        proof {
            assert forall|i: int|
                0 <= i < self@.len() && is_literal((#[trigger] self@[i]).pattern) && self@[i].pattern
                    == path@ implies found.deep_view() == Some((i as usize, no_params())) by {
                assert(entries_of(self@)[i].0 == self@[i].pattern);
            }
        }
        match found {
            None => None,
            Some((route, pairs)) => {
                let needs_body_part = self.descriptors[route].needs_body_part;
                Some(MatchedRoute { route, needs_body_part, params: PathParams::from_pairs(pairs) })
            },
        }
    }
}

} // verus!
