use shortlink::registry::Registry;
use shortlink::router::handle_request;
use std::sync::Arc;

fn redirect_concurrently(k: usize) -> String {
    let runtime = tokio::runtime::Builder::new_multi_thread()
        .worker_threads(4)
        .build()
        .unwrap();
    let registry = Arc::new(Registry::new());
    registry.insert("hot", "https://example.com");
    let mut handles = Vec::new();
    for _ in 0..k {
        let registry = registry.clone();
        handles.push(runtime.spawn(async move { handle_request(&registry, "/hot").status }));
    }
    for handle in handles {
        assert_eq!(runtime.block_on(handle).unwrap(), 302);
    }
    handle_request(&registry, "/v/hot").body
}

#[test]
fn concurrent_redirects_count_once_each_one() {
    assert_eq!(redirect_concurrently(1), "1");
}

#[test]
fn concurrent_redirects_count_once_each_ten() {
    assert_eq!(redirect_concurrently(10), "10");
}

#[test]
fn concurrent_redirects_count_once_each_thousand() {
    assert_eq!(redirect_concurrently(1000), "1000");
}
