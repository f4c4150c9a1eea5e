use greeter::startup::{
    capabilities, local_page_url, navigation_target, Capability, LOCAL_PORT, LOCAL_URL_BASE,
    MAIN_WINDOW,
};

#[test]
fn constants_of_the_start() {
    assert_eq!(LOCAL_PORT, 61234);
    assert_eq!(MAIN_WINDOW, "main");
    assert_eq!(LOCAL_URL_BASE, "http://localhost:");
}

#[test]
fn local_page_url_of_the_default_port() {
    assert_eq!(local_page_url(LOCAL_PORT), "http://localhost:61234");
}

#[test]
fn local_page_url_writes_the_port_in_decimal() {
    assert_eq!(local_page_url(0), "http://localhost:0");
    assert_eq!(local_page_url(7), "http://localhost:7");
    assert_eq!(local_page_url(9), "http://localhost:9");
    assert_eq!(local_page_url(10), "http://localhost:10");
    assert_eq!(local_page_url(80), "http://localhost:80");
    assert_eq!(local_page_url(100), "http://localhost:100");
    assert_eq!(local_page_url(1009), "http://localhost:1009");
    assert_eq!(local_page_url(8080), "http://localhost:8080");
    assert_eq!(local_page_url(10000), "http://localhost:10000");
    assert_eq!(local_page_url(65535), "http://localhost:65535");
}

#[test]
fn local_page_url_of_every_port() {
    for port in 0..=u16::MAX {
        assert_eq!(local_page_url(port), format!("http://localhost:{}", port));
    }
}

#[test]
fn local_page_url_reads_back_as_the_port() {
    for port in [0u16, 1, 9, 10, 99, 100, 4321, 61234, 65535] {
        let url = local_page_url(port);
        let digits = &url[LOCAL_URL_BASE.len()..];
        assert_eq!(digits.parse::<u16>(), Ok(port));
    }
}

#[test]
fn different_ports_different_urls() {
    assert_ne!(local_page_url(1), local_page_url(10));
    assert_ne!(local_page_url(61234), local_page_url(61235));
    assert_eq!(local_page_url(443), local_page_url(443));
}

#[test]
fn window_is_pointed_at_the_local_page_where_it_can_be_steered() {
    assert_eq!(
        navigation_target(LOCAL_PORT, true),
        Some(String::from("http://localhost:61234"))
    );
    assert_eq!(navigation_target(8080, true), Some(String::from("http://localhost:8080")));
}

#[test]
fn window_is_left_alone_where_it_cannot_be_steered() {
    assert_eq!(navigation_target(LOCAL_PORT, false), None);
    assert_eq!(navigation_target(0, false), None);
}

#[test]
fn capabilities_come_in_their_order() {
    assert_eq!(
        capabilities(),
        vec![
            Capability::Shell,
            Capability::LocalServer,
            Capability::Http,
            Capability::Opener,
            Capability::Dialog,
        ]
    );
}

#[test]
fn no_capability_comes_twice() {
    let order = capabilities();
    assert_eq!(order.len(), 5);
    for (i, first) in order.iter().enumerate() {
        for (j, second) in order.iter().enumerate() {
            assert_eq!(first == second, i == j);
        }
    }
}
