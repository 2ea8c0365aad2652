use dns_override::routes::{choose_route, parse_route_line, parse_routes, selected_interface, Route};
use dns_override::text::{parse_number, split_at_char};

fn route(metric: u64, if_metric: u64, interface: &str) -> Route {
    Route { metric, if_metric, interface: interface.to_string() }
}

#[test]
fn tie_on_metric_goes_to_higher_interface_metric() {
    let routes = vec![route(10, 5, "3"), route(10, 9, "7")];
    assert_eq!(choose_route(&routes), Some(1));
    assert_eq!(selected_interface("10,5,3\n10,9,7\n"), "7");
    assert_eq!(selected_interface("10,9,7\r\n10,5,3\r\n"), "7");
}

#[test]
fn lower_metric_wins() {
    let routes = vec![route(20, 50, "1"), route(5, 1, "2"), route(5, 0, "3")];
    assert_eq!(choose_route(&routes), Some(1));
    assert_eq!(choose_route(&vec![]), None);
}

#[test]
fn full_tie_keeps_first() {
    let routes = vec![route(3, 3, "a"), route(3, 3, "b")];
    assert_eq!(choose_route(&routes), Some(0));
}

#[test]
fn empty_listing_selects_empty_interface() {
    assert_eq!(selected_interface(""), "");
    assert_eq!(selected_interface("garbage\n"), "");
}

#[test]
fn numbers() {
    assert_eq!(parse_number("0"), Some(0));
    assert_eq!(parse_number("25"), Some(25));
    assert_eq!(parse_number("18446744073709551615"), Some(u64::MAX));
    assert_eq!(parse_number("18446744073709551616"), None);
    assert_eq!(parse_number(""), None);
    assert_eq!(parse_number("1a"), None);
    assert_eq!(parse_number("-1"), None);
}

#[test]
fn lines_and_pieces() {
    assert_eq!(split_at_char("a,b,,c", ','), vec!["a", "b", "", "c"]);
    assert_eq!(split_at_char("", ','), vec![""]);
    assert_eq!(parse_route_line("10,25,12\r"), Some(route(10, 25, "12")));
    assert_eq!(parse_route_line("10,25"), None);
    assert_eq!(parse_route_line("x,25,12"), None);
    assert_eq!(
        parse_routes("1,2,3\nbad\n4,5,6"),
        vec![route(1, 2, "3"), route(4, 5, "6")]
    );
}
