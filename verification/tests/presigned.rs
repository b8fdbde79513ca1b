use axum::body::Body;
use axum::extract::Path;
use axum::http::{Request, StatusCode};
use axum::routing::get;
use axum::Router;
use lore::presigned::repository_mount;
use tower::ServiceExt;

async fn answer(Path(repository): Path<String>) -> String {
    format!("repository {repository}")
}

fn status(router: Router, path: &str) -> StatusCode {
    let request = Request::builder().uri(path).body(Body::empty()).unwrap();
    let runtime = tokio::runtime::Builder::new_current_thread().build().unwrap();
    runtime.block_on(router.oneshot(request)).unwrap().status()
}

#[test]
fn routes_are_mounted_below_the_repository_id() {
    assert_eq!(repository_mount(), "/{repository_id}");
    let inner = Router::new().route("/upload", get(answer));
    let router = Router::new().nest(repository_mount(), inner);
    assert_eq!(status(router.clone(), "/0011aabb/upload"), StatusCode::OK);
    assert_eq!(status(router.clone(), "/upload"), StatusCode::NOT_FOUND);
    assert_eq!(status(router, "/0011aabb/download"), StatusCode::NOT_FOUND);
}
