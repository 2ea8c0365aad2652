//! The route listing and the choice of the current interface.
//!
//! A listing has one default route per line, as
//! `<route metric>,<interface metric>,<interface index>`; a line may end in
//! `\r`. Lines of any other shape are skipped. The current interface is that
//! of the first route in order of route metric ascending, then interface
//! metric descending.
use vstd::prelude::*;
use crate::text::{number_in, parse_number, split, split_at_char};

verus! {

/// The PowerShell command that prints the listing.
pub const ROUTE_LISTING_COMMAND: &'static str = "Get-NetRoute -DestinationPrefix '0.0.0.0/0' | ForEach-Object { '{0},{1},{2}' -f $_.RouteMetric, $_.ifMetric, $_.InterfaceIndex }";

/// One IPv4 default route.
#[derive(Clone, Debug, PartialEq, Eq)]
pub struct Route {
    pub metric: u64,
    pub if_metric: u64,
    pub interface: String,
}

/// A route with its interface seen as characters.
pub struct RouteView {
    pub metric: u64,
    pub if_metric: u64,
    pub interface: Seq<char>,
}

impl View for Route {
    type V = RouteView;

    open spec fn view(&self) -> RouteView {
        RouteView { metric: self.metric, if_metric: self.if_metric, interface: self.interface@ }
    }
}

/// The views of a sequence of routes.
pub open spec fn route_views(routes: Seq<Route>) -> Seq<RouteView> {
    routes.map_values(|r: Route| r@)
}

/// Whether route `a` comes strictly before route `b`.
pub open spec fn precedes(a: RouteView, b: RouteView) -> bool {
    a.metric < b.metric || (a.metric == b.metric && a.if_metric > b.if_metric)
}

/// Whether `i` is the route chosen from `routes`: ahead of every earlier
/// route, and no later route ahead of it.
pub open spec fn is_chosen(routes: Seq<RouteView>, i: int) -> bool {
    &&& 0 <= i < routes.len()
    &&& forall|j: int| 0 <= j < i ==> precedes(routes[i], #[trigger] routes[j])
    &&& forall|j: int| i < j < routes.len() ==> !precedes(#[trigger] routes[j], routes[i])
}

/// A line without its trailing carriage return, if it has one.
pub open spec fn without_cr(line: Seq<char>) -> Seq<char> {
    if line.len() > 0 && line.last() == '\r' {
        line.drop_last()
    } else {
        line
    }
}

/// The route a line of the listing describes, if it has the route shape.
pub open spec fn route_in(line: Seq<char>) -> Option<RouteView> {
    let f = split(without_cr(line), ',');
    if f.len() == 3 && number_in(f[0]) is Some && number_in(f[1]) is Some {
        Some(RouteView { metric: number_in(f[0])->0, if_metric: number_in(f[1])->0, interface: f[2] })
    } else {
        None
    }
}

/// The routes of the lines that have the route shape, in order.
pub open spec fn routes_in_lines(lines: Seq<Seq<char>>) -> Seq<RouteView>
    decreases lines.len(),
{
    if lines.len() == 0 {
        Seq::empty()
    } else {
        let before = routes_in_lines(lines.drop_last());
        match route_in(lines.last()) {
            Some(r) => before.push(r),
            None => before,
        }
    }
}

/// The routes of a listing.
pub open spec fn routes_in(listing: Seq<char>) -> Seq<RouteView> {
    routes_in_lines(split(listing, '\n'))
}

/// The interface a listing selects: that of the chosen route, or empty when
/// the listing holds no route.
pub open spec fn interface_selected(listing: Seq<char>, iface: Seq<char>) -> bool {
    let routes = routes_in(listing);
    if routes.len() == 0 {
        iface.len() == 0
    } else {
        exists|i: int| is_chosen(routes, i) && iface == routes[i].interface
    }
}

/// The index of the chosen route; `None` when there is none.
pub fn choose_route(routes: &Vec<Route>) -> (r: Option<usize>)
    ensures
        routes@.len() == 0 <==> r is None,
        r matches Some(i) ==> is_chosen(route_views(routes@), i as int),
{
    if routes.len() == 0 {
        return None;
    }
    let ghost v = route_views(routes@);
    let mut best: usize = 0;
    let mut k: usize = 1;
    while k < routes.len()
        invariant
            v == route_views(routes@),
            0 <= best < k <= routes@.len(),
            forall|j: int| 0 <= j < best ==> precedes(v[best as int], #[trigger] v[j]),
            forall|j: int| best < j < k ==> !precedes(#[trigger] v[j], v[best as int]),
        decreases routes@.len() - k,
    {
        let c = &routes[k];
        let b = &routes[best];
        if c.metric < b.metric || (c.metric == b.metric && c.if_metric > b.if_metric) {
            best = k;
        }
        k = k + 1;
    }
    Some(best)
}

/// At most one route is chosen from a listing.
pub proof fn lemma_chosen_unique(routes: Seq<RouteView>, i: int, k: int)
    requires
        is_chosen(routes, i),
        is_chosen(routes, k),
    ensures
        i == k,
{
    if i < k {
        assert(precedes(routes[k], routes[i]));
    } else if k < i {
        assert(precedes(routes[i], routes[k]));
    }
}

/// The route a line of the listing describes, if it has the route shape.
pub fn parse_route_line(line: &str) -> (r: Option<Route>)
    ensures
        match r {
            Some(x) => route_in(line@) == Some(x@),
            None => route_in(line@) is None,
        },
{
    let n = line.unicode_len();
    let body = if n > 0 && line.get_char(n - 1) == '\r' {
        line.substring_char(0, n - 1)
    } else {
        line
    };
    assert(body@ == without_cr(line@));
    let fields = split_at_char(body, ',');
    assert(fields@.len() == split(body@, ',').len());
    if fields.len() != 3 {
        return None;
    }
    assert(fields@[0]@ == split(body@, ',')[0]);
    assert(fields@[1]@ == split(body@, ',')[1]);
    assert(fields@[2]@ == split(body@, ',')[2]);
    let metric = parse_number(fields[0].as_str());
    let if_metric = parse_number(fields[1].as_str());
    match (metric, if_metric) {
        (Some(m), Some(im)) => Some(Route { metric: m, if_metric: im, interface: fields[2].clone() }),
        _ => None,
    }
}

/// The routes of a listing, in order.
pub fn parse_routes(listing: &str) -> (r: Vec<Route>)
    ensures
        route_views(r@) == routes_in(listing@),
{
    let lines = split_at_char(listing, '\n');
    let ghost lv = lines@.map_values(|p: String| p@);
    let mut out: Vec<Route> = Vec::new();
    let mut i: usize = 0;
    while i < lines.len()
        invariant
            lv == lines@.map_values(|p: String| p@),
            lv == split(listing@, '\n'),
            i <= lines@.len(),
            route_views(out@) == routes_in_lines(lv.take(i as int)),
        decreases lines@.len() - i,
    {
        proof {
            assert(lv.take(i + 1).drop_last() == lv.take(i as int));
            assert(lv.take(i + 1).last() == lines@[i as int]@);
        }
        match parse_route_line(lines[i].as_str()) {
            Some(route) => {
                let ghost before = out@;
                out.push(route);
                assert(route_views(out@) == route_views(before).push(route@));
            },
            None => {},
        }
        i = i + 1;
    }
    assert(lv.take(lines@.len() as int) == lv);
    out
}

/// The interface a listing selects: that of the chosen route, or empty when
/// the listing holds no route.
pub fn selected_interface(listing: &str) -> (r: String)
    ensures
        interface_selected(listing@, r@),
{
    let routes = parse_routes(listing);
    match choose_route(&routes) {
        Some(i) => {
            assert(route_views(routes@)[i as int].interface == routes@[i as int].interface@);
            routes[i].interface.clone()
        },
        None => String::new(),
    }
}

} // verus!
