use js_engine::calls::{
    call, call_performed, handle_call_reject, handle_call_reply, remove_js_callback, CallbackRun,
    Reason,
};
use js_engine::driver::{execute, execute_js_callback, Response, Resumed};
use js_engine::ids::{CallContextId, CallbackId};
use js_engine::tables::{get_deserializer, get_replier, Engine};
use js_engine::task::{ContextHandle, Fault};
use std::cell::RefCell;
use std::collections::BTreeMap;

type Log = RefCell<Vec<String>>;
type Producer = Box<dyn FnOnce(&Log, Result<i64, String>) -> String>;
type Decoder = Box<dyn FnOnce(&Log, Vec<u8>) -> Result<i64, String>>;

fn producer(name: &'static str) -> Producer {
    Box::new(move |log, result| {
        let reply = match result {
            Ok(value) => format!("{}", value),
            Err(error) => format!("error: {}", error),
        };
        log.borrow_mut().push(format!("{} replies {}", name, reply));
        reply
    })
}

fn decoder() -> Decoder {
    Box::new(|log, payload| {
        log.borrow_mut().push(format!("decode {:?}", payload));
        match payload.as_slice() {
            [byte] => Ok(*byte as i64),
            _ => Err(format!("expected one byte, got {}", payload.len())),
        }
    })
}

// A stand-in for the script side: a registry of call contexts and callbacks,
// and an endpoint that adds up what its outgoing calls return. The endpoint
// replies with the sum once every call has come back, and is rejected with
// the errors of its calls, joined, if any call failed.
struct OpenContext {
    calls: Vec<i32>,
    returned: bool,
    replied: Option<i64>,
    rejected: Option<String>,
}

struct Script {
    contexts: BTreeMap<i32, OpenContext>,
    callbacks: BTreeMap<i32, (i32, Option<Result<i64, String>>)>,
    next_context: i32,
    next_callback: i32,
    entered: i32,
}

impl Script {
    fn new() -> Script {
        Script {
            contexts: BTreeMap::new(),
            callbacks: BTreeMap::new(),
            next_context: 1,
            next_callback: 100,
            entered: 0,
        }
    }

    fn begin(&mut self) -> i32 {
        let id = self.next_context;
        self.next_context += 1;
        self.contexts
            .insert(id, OpenContext { calls: vec![], returned: false, replied: None, rejected: None });
        self.entered = id;
        id
    }

    fn allocate_callback(&mut self, context: i32) -> CallbackId {
        let id = self.next_callback;
        self.next_callback += 1;
        self.callbacks.insert(id, (context, None));
        self.contexts.get_mut(&context).unwrap().calls.push(id);
        CallbackId(id)
    }

    fn settle(&mut self, context: i32) {
        let open = self.contexts.get_mut(&context).unwrap();
        if !open.returned || open.replied.is_some() || open.rejected.is_some() {
            return;
        }
        let mut sum = 0;
        let mut errors: Vec<String> = vec![];
        for callback in &open.calls {
            match &self.callbacks[callback].1 {
                None => return,
                Some(Ok(value)) => sum += value,
                Some(Err(error)) => errors.push(error.clone()),
            }
        }
        if errors.is_empty() {
            open.replied = Some(sum);
        } else {
            open.rejected = Some(errors.join("; "));
        }
    }

    fn handle(&self, context: i32) -> ContextHandle<i64, String> {
        let open = &self.contexts[&context];
        ContextHandle {
            id: CallContextId(context),
            replied: open.replied,
            rejected: open.rejected.clone(),
        }
    }

    fn finish_run(&mut self, context: i32) -> ContextHandle<i64, String> {
        self.contexts.get_mut(&context).unwrap().returned = true;
        self.settle(context);
        self.handle(context)
    }

    fn run(&mut self, run: CallbackRun<i64, String>) -> Resumed<i64, String> {
        let (callback, outcome) = match run {
            CallbackRun::Reply { callback, value } => (callback, Ok(value)),
            CallbackRun::Reject { callback, reason: Reason::Message(text) } => (callback, Err(text)),
            CallbackRun::Reject { callback, reason: Reason::Error(error) } => (callback, Err(error)),
        };
        match self.callbacks.get_mut(&callback.0) {
            Some(entry) if entry.1.is_none() => {
                entry.1 = Some(outcome);
                let context = entry.0;
                self.entered = context;
                self.settle(context);
                Resumed::Returned(self.handle(context))
            }
            _ => Resumed::Raised {
                error: format!("no callback {}", callback.0),
                active: CallContextId(self.entered),
            },
        }
    }
}

struct Host {
    engine: Engine<Producer, Decoder>,
    script: Script,
    log: Log,
}

impl Host {
    fn new() -> Host {
        Host { engine: Engine::new(), script: Script::new(), log: RefCell::new(vec![]) }
    }

    // Invokes the endpoint; it issues one call for each code, and the
    // transport answers the call's dispatch with that code.
    fn invoke(&mut self, name: &'static str, codes: &[i32]) -> (Vec<CallbackId>, Response<String>) {
        let context = self.script.begin();
        let mut callbacks = vec![];
        for code in codes {
            let callback = self.script.allocate_callback(context);
            let tokens = call(&mut self.engine, callback, decoder());
            assert_eq!((tokens.reply, tokens.reject, tokens.cleanup), (callback.0, callback.0, callback.0));
            if let Some(run) = call_performed(callback, *code) {
                self.resume(run);
            }
            callbacks.push(callback);
        }
        let handle = self.script.finish_run(context);
        let response = execute(&mut self.engine, &self.log, Ok(handle), producer(name))
            .expect("no fault");
        (callbacks, response)
    }

    fn resume(&mut self, run: CallbackRun<i64, String>) -> Option<String> {
        let resumed = self.script.run(run);
        execute_js_callback(&mut self.engine, &self.log, resumed).expect("no fault")
    }

    fn reply(&mut self, callback: CallbackId, payload: Vec<u8>) -> Option<String> {
        let run = handle_call_reply(&mut self.engine, &self.log, callback, payload).expect("no fault");
        self.resume(run)
    }

    fn reject(&mut self, callback: CallbackId, message: &str) -> Option<String> {
        match handle_call_reject(&mut self.engine, callback, message.to_string()) {
            Some(run) => self.resume(run),
            None => None,
        }
    }

    fn cleanup(&mut self, callback: CallbackId) -> bool {
        remove_js_callback(&mut self.engine, callback)
    }

    fn replies(&self) -> Vec<String> {
        self.log.borrow().iter().filter(|line| line.contains(" replies ")).cloned().collect()
    }
}

#[test]
fn no_outgoing_calls_respond_now() {
    let mut host = Host::new();
    let (callbacks, response) = host.invoke("sum", &[]);
    assert!(callbacks.is_empty());
    assert!(matches!(response, Response::Now(reply) if reply == "0"));
    assert_eq!(host.replies(), vec!["sum replies 0"]);
    assert!(get_replier(&mut host.engine, CallContextId(1)).is_none());
}

#[test]
fn one_outgoing_call_responds_after_its_reply() {
    let mut host = Host::new();
    let (callbacks, response) = host.invoke("sum", &[0]);
    assert!(matches!(response, Response::Later));
    assert!(host.replies().is_empty());
    assert_eq!(host.reply(callbacks[0], vec![42]), Some("42".to_string()));
    assert_eq!(*host.log.borrow(), vec!["decode [42]", "sum replies 42"]);
    assert!(!host.cleanup(callbacks[0]));
    assert_eq!(host.replies(), vec!["sum replies 42"]);
}

#[test]
fn two_outgoing_calls_respond_once_after_both() {
    let mut host = Host::new();
    let (callbacks, response) = host.invoke("sum", &[0, 0]);
    assert!(matches!(response, Response::Later));
    assert_eq!(host.reject(callbacks[0], "first failed"), None);
    assert!(host.replies().is_empty());
    assert_eq!(host.reply(callbacks[1], vec![5]), Some("error: first failed".to_string()));
    assert_eq!(host.replies(), vec!["sum replies error: first failed"]);
    assert!(!host.cleanup(callbacks[0]));
    assert!(!host.cleanup(callbacks[1]));
    assert_eq!(host.replies().len(), 1);
}

#[test]
fn two_outgoing_calls_respond_once_in_the_other_order() {
    let mut host = Host::new();
    let (callbacks, response) = host.invoke("sum", &[0, 0]);
    assert!(matches!(response, Response::Later));
    assert_eq!(host.reply(callbacks[1], vec![5]), None);
    assert!(host.replies().is_empty());
    assert_eq!(host.reject(callbacks[0], "first failed"), Some("error: first failed".to_string()));
    assert_eq!(host.replies().len(), 1);
    assert!(get_replier(&mut host.engine, CallContextId(1)).is_none());
}

#[test]
fn two_replies_add_up() {
    let mut host = Host::new();
    let (callbacks, response) = host.invoke("sum", &[0, 0]);
    assert!(matches!(response, Response::Later));
    assert_eq!(host.reply(callbacks[0], vec![40]), None);
    assert_eq!(host.reply(callbacks[1], vec![2]), Some("42".to_string()));
    assert_eq!(host.replies(), vec!["sum replies 42"]);
}

#[test]
fn refused_dispatch_rejects_at_once() {
    let mut host = Host::new();
    let (callbacks, response) = host.invoke("sum", &[3]);
    match response {
        Response::Now(reply) => {
            assert_eq!(reply, "error: Failed to make a call, error code: 3")
        }
        Response::Later => panic!("nothing is left to wait for"),
    }
    assert_eq!(*host.log.borrow(), vec!["sum replies error: Failed to make a call, error code: 3"]);
    assert!(get_replier(&mut host.engine, CallContextId(1)).is_none());
    assert!(get_deserializer(&mut host.engine, callbacks[0]).is_some());
}

#[test]
fn refused_dispatch_beside_a_call_under_way() {
    let mut host = Host::new();
    let (callbacks, response) = host.invoke("sum", &[0, 7]);
    assert!(matches!(response, Response::Later));
    assert!(host.replies().is_empty());
    assert_eq!(
        host.reply(callbacks[0], vec![1]),
        Some("error: Failed to make a call, error code: 7".to_string())
    );
    assert_eq!(host.replies().len(), 1);
}

#[test]
fn undecodable_reply_rejects_the_call() {
    let mut host = Host::new();
    let (callbacks, response) = host.invoke("sum", &[0]);
    assert!(matches!(response, Response::Later));
    assert_eq!(
        host.reply(callbacks[0], vec![]),
        Some("error: expected one byte, got 0".to_string())
    );
}

#[test]
fn call_contexts_do_not_mix() {
    let mut host = Host::new();
    let (first, response) = host.invoke("first", &[0]);
    assert!(matches!(response, Response::Later));
    let (second, response) = host.invoke("second", &[0]);
    assert!(matches!(response, Response::Later));
    assert_eq!(host.reply(second[0], vec![2]), Some("2".to_string()));
    assert_eq!(host.replies(), vec!["second replies 2"]);
    assert_eq!(host.reply(first[0], vec![1]), Some("1".to_string()));
    assert_eq!(host.replies(), vec!["second replies 2", "first replies 1"]);
}

#[test]
fn cleanup_alone_resumes_nothing() {
    let mut host = Host::new();
    let (callbacks, response) = host.invoke("sum", &[0]);
    assert!(matches!(response, Response::Later));
    assert!(host.cleanup(callbacks[0]));
    assert!(host.log.borrow().is_empty());
    assert!(get_replier(&mut host.engine, CallContextId(1)).is_some());
}

#[test]
fn reply_after_cleanup_is_a_fault() {
    let mut host = Host::new();
    let (callbacks, _) = host.invoke("sum", &[0]);
    assert!(host.cleanup(callbacks[0]));
    assert_eq!(
        handle_call_reply(&mut host.engine, &host.log, callbacks[0], vec![1]).err(),
        Some(Fault::NoDeserializer(callbacks[0]))
    );
    assert!(host.log.borrow().is_empty());
}

#[test]
fn error_raised_on_resumption_goes_to_the_entered_context() {
    let mut host = Host::new();
    let (_, response) = host.invoke("first", &[0]);
    assert!(matches!(response, Response::Later));
    let (_, response) = host.invoke("second", &[0]);
    assert!(matches!(response, Response::Later));
    let stray = CallbackRun::Reply { callback: CallbackId(999), value: 1 };
    assert_eq!(host.resume(stray), Some("error: no callback 999".to_string()));
    assert_eq!(host.replies(), vec!["second replies error: no callback 999"]);
    assert!(get_replier(&mut host.engine, CallContextId(1)).is_some());
    assert!(get_replier(&mut host.engine, CallContextId(2)).is_none());
}
