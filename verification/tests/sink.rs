use std::sync::Arc;

use chat_req_res::cmd::{register_handle, Registry};
use chat_req_res::server::{dispatch, respond, ErrorEnvelope};
use chat_req_res::{Delivery, RestReq, RestRes};
use tokio::runtime::{Builder, Runtime};
use tokio::sync::mpsc::{channel, Sender};

fn runtime() -> Runtime {
    Builder::new_multi_thread().worker_threads(2).enable_all().build().unwrap()
}

async fn serve(
    registry: &Registry,
    sink: &Sender<String>,
    req: RestReq,
) -> Result<RestRes, ErrorEnvelope> {
    let invocation = match dispatch(registry, req) {
        Ok(invocation) => invocation,
        Err(e) => return respond(Err(e)),
    };
    let delivery = match sink.clone().send(invocation.notice()).await {
        Ok(()) => Delivery::Delivered,
        Err(_) => Delivery::Closed,
    };
    respond(invocation.complete(delivery))
}

#[test]
fn greet_sends_exactly_one_notification() {
    let registry = register_handle();
    let (tx, mut rx) = channel::<String>(32);
    let reply = runtime().block_on(serve(&registry, &tx, RestReq::new("greet", "hi")));
    assert_eq!(reply, Ok(RestRes { response: "good-bye".to_string() }));
    assert_eq!(rx.try_recv().ok(), Some("greet handlerから: hi".to_string()));
    assert!(rx.try_recv().is_err());
}

#[test]
fn yebisu_sends_exactly_one_notification() {
    let registry = register_handle();
    let (tx, mut rx) = channel::<String>(32);
    let reply = runtime().block_on(serve(&registry, &tx, RestReq::new("yebisu", "hi")));
    assert_eq!(reply, Ok(RestRes { response: "Yebisu beer is excellent!".to_string() }));
    assert_eq!(rx.try_recv().ok(), Some("yebisu handlerから: hi".to_string()));
    assert!(rx.try_recv().is_err());
}

#[test]
fn unknown_command_sends_nothing() {
    let registry = register_handle();
    let (tx, mut rx) = channel::<String>(32);
    let reply = runtime().block_on(serve(&registry, &tx, RestReq::new("unknown", "x")));
    let envelope = reply.unwrap_err();
    assert_eq!(envelope.message, "not success");
    assert_eq!(envelope.from, "だめ");
    assert!(rx.try_recv().is_err());
}

#[test]
fn closed_consumer_yields_an_envelope() {
    let registry = register_handle();
    let (tx, rx) = channel::<String>(32);
    drop(rx);
    let rt = runtime();
    for name in ["greet", "yebisu"] {
        let reply = rt.block_on(serve(&registry, &tx, RestReq::new(name, "hi")));
        assert_eq!(
            reply,
            Err(ErrorEnvelope {
                message: "not success".to_string(),
                from: "channel closed".to_string(),
            })
        );
    }
}

#[test]
fn concurrent_dispatches_both_succeed() {
    let registry = Arc::new(register_handle());
    let (tx, mut rx) = channel::<String>(32);
    let rt = runtime();
    let (r1, t1) = (registry.clone(), tx.clone());
    let (r2, t2) = (registry.clone(), tx.clone());
    let first = rt.spawn(async move { serve(&r1, &t1, RestReq::new("greet", "a")).await });
    let second = rt.spawn(async move { serve(&r2, &t2, RestReq::new("yebisu", "b")).await });
    let (first, second) = rt.block_on(async move { (first.await.unwrap(), second.await.unwrap()) });
    assert_eq!(first, Ok(RestRes { response: "good-bye".to_string() }));
    assert_eq!(second, Ok(RestRes { response: "Yebisu beer is excellent!".to_string() }));
    let mut seen = vec![rx.try_recv().unwrap(), rx.try_recv().unwrap()];
    seen.sort();
    assert_eq!(seen, vec!["greet handlerから: a".to_string(), "yebisu handlerから: b".to_string()]);
    assert!(rx.try_recv().is_err());
}

#[test]
fn a_full_sink_holds_one_dispatch_back_and_not_the_unknown_one() {
    let registry = Arc::new(register_handle());
    let (tx, mut rx) = channel::<String>(1);
    let rt = runtime();
    tx.try_send("earlier".to_string()).unwrap();
    let (r1, t1) = (registry.clone(), tx.clone());
    let waiting = rt.spawn(async move { serve(&r1, &t1, RestReq::new("greet", "late")).await });
    let other = rt.block_on(serve(&registry, &tx, RestReq::new("unknown", "x")));
    assert_eq!(other.unwrap_err().message, "not success");
    let (first, reply, second) = rt.block_on(async move {
        let first = rx.recv().await;
        let reply = waiting.await.unwrap();
        let second = rx.recv().await;
        (first, reply, second)
    });
    assert_eq!(first, Some("earlier".to_string()));
    assert_eq!(reply, Ok(RestRes { response: "good-bye".to_string() }));
    assert_eq!(second, Some("greet handlerから: late".to_string()));
}
