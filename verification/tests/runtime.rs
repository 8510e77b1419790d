use rjni::ffi::jvalue;
use rjni::{
    Class, Dispatch, Error, Naming, Object, Outcome, Reply, Request, Translation, Turn, Type,
    Value,
};

const DEMO: u64 = 10;
const FAILURE: u64 = 20;
const MISSING: u64 = 21;
const FIRST_OBJECT: u64 = 1000;
const FIRST_STRING: u64 = 5000;
const THROWN: u64 = 900;
const NOT_FOUND: u64 = 901;

const INIT: u64 = 1;
const INCREMENT: u64 = 2;
const CURRENT: u64 = 3;
const ADD: u64 = 4;
const FAIL: u64 = 5;
const GET_NAME: u64 = 6;
const GET_MESSAGE: u64 = 7;
const GREET: u64 = 8;
const SAME: u64 = 9;
const IS_POSITIVE: u64 = 11;
const JOIN: u64 = 12;
const EXPLODE: u64 = 13;

/// A runtime that is simulated in the test: one class `Demo` that counts,
/// and an exception class.
struct Vm {
    counters: Vec<i32>,
    strings: Vec<String>,
    pending: Option<u64>,
    raise_on_missing: bool,
    lookup_all: bool,
    cleared: usize,
    released: Vec<u64>,
    log: Vec<String>,
}

impl Vm {
    fn new() -> Vm {
        Vm {
            counters: Vec::new(),
            strings: Vec::new(),
            pending: None,
            raise_on_missing: false,
            lookup_all: false,
            cleared: 0,
            released: Vec::new(),
            log: Vec::new(),
        }
    }

    fn string(&mut self, text: &str) -> u64 {
        self.strings.push(text.to_string());
        FIRST_STRING + self.strings.len() as u64 - 1
    }

    fn lookup(&mut self, class: u64, name: &str, signature: &str, is_static: bool) -> u64 {
        let found = match (class, name, signature, is_static) {
            (DEMO, "<init>", "(I)V", false) => INIT,
            (DEMO, "increment", "()V", false) => INCREMENT,
            (DEMO, "current", "()I", false) => CURRENT,
            (DEMO, "add", "(II)I", true) => ADD,
            (DEMO, "fail", "()V", false) => FAIL,
            (DEMO, "greet", "(Ljava/lang/String;I)Ljava/lang/String;", true) => GREET,
            (DEMO, "same", "(LDemo;JLDemo;)Z", false) => SAME,
            (DEMO, "isPositive", "()Z", false) => IS_POSITIVE,
            (_, "getName", "()Ljava/lang/String;", false) => GET_NAME,
            (FAILURE, "getMessage", "()Ljava/lang/String;", false) => GET_MESSAGE,
            (MISSING, "getMessage", "()Ljava/lang/String;", false) => GET_MESSAGE,
            (DEMO, "join", _, true) if self.lookup_all => JOIN,
            (DEMO, "explode", _, true) if self.lookup_all => EXPLODE,
            _ => 0,
        };
        if found == 0 && self.raise_on_missing {
            self.pending = Some(NOT_FOUND);
        }
        found
    }

    fn invoke(&mut self, slot: usize, target: u64, method: u64, args: Vec<jvalue>) -> u64 {
        let above: u64 = 0xABCD_EF01_0000_0000;
        match (method, slot) {
            (INIT, 30) => {
                assert_eq!(target, DEMO);
                self.counters.push(args[0].i());
                FIRST_OBJECT + self.counters.len() as u64 - 1
            }
            (INCREMENT, 63) => {
                self.counters[(target - FIRST_OBJECT) as usize] += 1;
                above
            }
            (CURRENT, 51) => {
                let value = self.counters[(target - FIRST_OBJECT) as usize];
                above | (value as u32 as u64)
            }
            (IS_POSITIVE, 39) => {
                let value = self.counters[(target - FIRST_OBJECT) as usize];
                above | (value > 0) as u64
            }
            (ADD, 131) => {
                assert_eq!(target, DEMO);
                above | (args[0].i().wrapping_add(args[1].i()) as u32 as u64)
            }
            (FAIL, 63) => {
                self.pending = Some(THROWN);
                0
            }
            (GREET, 116) => {
                assert!(!self.released.contains(&args[0].l()));
                let name = self.strings[(args[0].l() - FIRST_STRING) as usize].clone();
                let text = format!("hello, {} ({})", name, args[1].i());
                self.string(&text)
            }
            (SAME, 39) => {
                assert_eq!(args.len(), 3);
                (args[0].l() == target && args[2].l() == target && args[1].j() == -1) as u64
            }
            (JOIN, 131) => args.len() as u64,
            (EXPLODE, 143) => {
                self.pending = Some(THROWN);
                0
            }
            (GET_NAME, 34) => {
                assert!(args.is_empty());
                let name = match target {
                    DEMO => "Demo",
                    FAILURE => "java.lang.IllegalStateException",
                    MISSING => "java.lang.NoSuchMethodError",
                    _ => panic!("no such class"),
                };
                self.string(name)
            }
            (GET_MESSAGE, 36) => {
                assert!(args.is_empty());
                let message = match target {
                    THROWN => "boom",
                    NOT_FOUND => "no such method",
                    _ => panic!("no such exception"),
                };
                self.string(message)
            }
            _ => panic!("method {} called through slot {}", method, slot),
        }
    }

    fn perform(&mut self, request: Request) -> Reply {
        if self.pending.is_some() {
            assert!(
                matches!(
                    request,
                    Request::ExceptionCheck | Request::ExceptionOccurred | Request::ExceptionClear
                ),
                "{:?} while an exception is pending",
                request
            );
        }
        self.log.push(
            match &request {
                Request::ObjectClass { .. } => "class",
                Request::Method { .. } => "method",
                Request::NewString { .. } => "new string",
                Request::Invoke { .. } => "invoke",
                Request::ExceptionCheck => "check",
                Request::ExceptionOccurred => "occurred",
                Request::ExceptionClear => "clear",
                Request::ReadString { .. } => "read",
                Request::DeleteLocalRef { .. } => "release",
            }
            .to_string(),
        );
        match request {
            Request::ObjectClass { object } => Reply::Handle(match object {
                THROWN => FAILURE,
                NOT_FOUND => MISSING,
                _ => DEMO,
            }),
            Request::Method { class, name, signature, is_static } => {
                Reply::Handle(self.lookup(class, &name, &signature, is_static))
            }
            Request::NewString { text } => Reply::Handle(self.string(&text)),
            Request::Invoke { slot, target, method, args } => {
                Reply::Cell(jvalue { data: self.invoke(slot, target, method, args) })
            }
            Request::ExceptionCheck => Reply::Flag(self.pending.is_some()),
            Request::ExceptionOccurred => Reply::Handle(self.pending.unwrap()),
            Request::ExceptionClear => {
                self.pending = None;
                self.cleared += 1;
                Reply::Nothing
            }
            Request::ReadString { string } => {
                assert!(!self.released.contains(&string));
                Reply::Text(self.strings[(string - FIRST_STRING) as usize].clone())
            }
            Request::DeleteLocalRef { object } => {
                assert!(object >= FIRST_STRING);
                assert!(!self.released.contains(&object));
                self.released.push(object);
                Reply::Nothing
            }
        }
    }

    fn run(&mut self, first: Turn<Dispatch, Outcome>) -> Outcome {
        let mut turn = first;
        loop {
            match turn {
                Turn::Ask(call, request) => {
                    let reply = self.perform(request);
                    assert!(call.expects(&reply));
                    turn = call.step(reply);
                }
                Turn::Done(outcome) => return outcome,
            }
        }
    }

    fn log(&self) -> Vec<&str> {
        self.log.iter().map(|entry| entry.as_str()).collect()
    }
}

fn done<M, T>(turn: Turn<M, T>) -> Option<T> {
    match turn {
        Turn::Ask(_, _) => None,
        Turn::Done(result) => Some(result),
    }
}

fn demo() -> Class {
    Class { raw: DEMO }
}

fn new_counter(vm: &mut Vm, start: i32) -> Object {
    let made = vm.run(demo().instantiate(vec![Value::Int(start)]));
    made.unwrap().as_object()
}

#[test]
fn construct_increment_and_read() {
    let mut vm = Vm::new();
    let object = new_counter(&mut vm, 5);
    assert_eq!(object, Object { raw: FIRST_OBJECT });
    assert_eq!(vm.run(object.call("increment", vec![], Type::Void)), Ok(Value::Void));
    assert_eq!(vm.run(object.call("current", vec![], Type::Int)), Ok(Value::Int(6)));
    assert_eq!(vm.cleared, 0);
}

#[test]
fn each_object_is_its_own() {
    let mut vm = Vm::new();
    let first = new_counter(&mut vm, -3);
    let second = new_counter(&mut vm, 100);
    assert_ne!(first, second);
    assert_eq!(vm.run(second.call("increment", vec![], Type::Void)), Ok(Value::Void));
    assert_eq!(vm.run(first.call("current", vec![], Type::Int)), Ok(Value::Int(-3)));
    assert_eq!(vm.run(second.call("current", vec![], Type::Int)), Ok(Value::Int(101)));
    assert_eq!(vm.run(first.call("isPositive", vec![], Type::Boolean)), Ok(Value::Boolean(false)));
    assert_eq!(vm.run(second.call("isPositive", vec![], Type::Boolean)), Ok(Value::Boolean(true)));
}

#[test]
fn static_add() {
    let mut vm = Vm::new();
    let sum = vm.run(demo().call_static("add", vec![Value::Int(1), Value::Int(9)], Type::Int));
    assert_eq!(sum, Ok(Value::Int(10)));
    assert_eq!(vm.log(), vec!["method", "invoke", "check"]);
}

#[test]
fn static_add_wraps_like_the_runtime() {
    let mut vm = Vm::new();
    let args = vec![Value::Int(i32::MAX), Value::Int(1)];
    assert_eq!(vm.run(demo().call_static("add", args, Type::Int)), Ok(Value::Int(i32::MIN)));
    let args = vec![Value::Int(-4), Value::Int(3)];
    assert_eq!(vm.run(demo().call_static("add", args, Type::Int)), Ok(Value::Int(-1)));
}

#[test]
fn a_method_of_an_object_asks_for_its_class_first() {
    let mut vm = Vm::new();
    let object = new_counter(&mut vm, 0);
    vm.log.clear();
    assert_eq!(vm.run(object.call("current", vec![], Type::Int)), Ok(Value::Int(0)));
    assert_eq!(vm.log(), vec!["class", "method", "invoke", "check"]);
}

#[test]
fn a_missing_method_is_not_found() {
    let mut vm = Vm::new();
    let object = new_counter(&mut vm, 5);
    vm.log.clear();
    let outcome = vm.run(object.call("nothingOfTheKind", vec![], Type::Int));
    assert_eq!(outcome, Err(Error::NotFound(None)));
    assert_eq!(vm.log(), vec!["class", "method", "check"]);
    assert_eq!(vm.cleared, 0);
}

#[test]
fn a_wrong_signature_is_not_found() {
    let mut vm = Vm::new();
    let outcome = vm.run(demo().call_static("add", vec![Value::Int(1)], Type::Int));
    assert_eq!(outcome, Err(Error::NotFound(None)));
    let outcome = vm.run(demo().call_static("add", vec![Value::Int(1), Value::Int(9)], Type::Long));
    assert_eq!(outcome, Err(Error::NotFound(None)));
    let outcome = vm.run(demo().instantiate(vec![]));
    assert_eq!(outcome, Err(Error::NotFound(None)));
}

#[test]
fn a_lookup_that_raises_is_not_found_with_the_exception() {
    let mut vm = Vm::new();
    vm.raise_on_missing = true;
    let outcome = vm.run(demo().call_static("nothingOfTheKind", vec![], Type::Void));
    match outcome {
        Err(Error::NotFound(Some(info))) => {
            assert_eq!(info.name(), "java.lang.NoSuchMethodError");
            assert_eq!(info.message(), "no such method");
            assert_eq!(info.stack_trace(), "");
        }
        other => panic!("{:?}", other),
    }
    assert_eq!(vm.pending, None);
    assert_eq!(vm.cleared, 1);
    assert_eq!(&vm.log()[..4], &["method", "check", "occurred", "clear"]);
    assert_eq!(vm.log().iter().filter(|entry| **entry == "invoke").count(), 2);
}

#[test]
fn a_method_that_throws_gives_the_exception() {
    let mut vm = Vm::new();
    let object = new_counter(&mut vm, 5);
    vm.log.clear();
    let outcome = vm.run(object.call("fail", vec![], Type::Void));
    match outcome {
        Err(Error::Exception(info)) => {
            assert_eq!(info.name(), "java.lang.IllegalStateException");
            assert_eq!(info.message(), "boom");
            assert_eq!(info.stack_trace(), "");
        }
        other => panic!("{:?}", other),
    }
    assert_eq!(vm.pending, None);
    assert_eq!(vm.cleared, 1);
    assert_eq!(
        vm.log(),
        vec![
            "class", "method", "invoke", "check", "occurred", "clear", "class", "method",
            "invoke", "read", "class", "method", "invoke", "check", "read"
        ]
    );
}

#[test]
fn the_bridge_works_on_after_an_exception() {
    let mut vm = Vm::new();
    let object = new_counter(&mut vm, 1);
    assert!(matches!(
        vm.run(object.call("fail", vec![], Type::Void)),
        Err(Error::Exception(_))
    ));
    assert_eq!(vm.run(object.call("current", vec![], Type::Int)), Ok(Value::Int(1)));
    assert!(matches!(
        vm.run(object.call("fail", vec![], Type::Void)),
        Err(Error::Exception(_))
    ));
    assert_eq!(vm.cleared, 2);
    assert_eq!(vm.pending, None);
}

#[test]
fn a_string_argument_is_made_in_the_runtime_and_a_string_result_is_read() {
    let mut vm = Vm::new();
    let args = vec![Value::Str("world".to_string()), Value::Int(3)];
    let outcome = vm.run(demo().call_static("greet", args, Type::Str));
    assert_eq!(outcome, Ok(Value::Str("hello, world (3)".to_string())));
    assert_eq!(vm.log(), vec!["method", "new string", "invoke", "check", "read", "release"]);
    assert_eq!(vm.released, vec![FIRST_STRING]);
}

#[test]
fn every_string_that_was_made_is_released_in_order() {
    let mut vm = Vm::new();
    vm.lookup_all = true;
    let args = vec![
        Value::Str("a".to_string()),
        Value::Int(1),
        Value::Str("b".to_string()),
        Value::Str("c".to_string()),
        Value::Boolean(true),
    ];
    let outcome = vm.run(demo().call_static("join", args, Type::Int));
    assert_eq!(outcome, Ok(Value::Int(5)));
    assert_eq!(
        vm.log(),
        vec![
            "method", "new string", "new string", "new string", "invoke", "check", "release",
            "release", "release"
        ]
    );
    assert_eq!(vm.strings, vec!["a".to_string(), "b".to_string(), "c".to_string()]);
    assert_eq!(vm.released, vec![FIRST_STRING, FIRST_STRING + 1, FIRST_STRING + 2]);
}

#[test]
fn strings_are_released_after_an_exception_was_translated() {
    let mut vm = Vm::new();
    vm.lookup_all = true;
    let args = vec![Value::Str("a".to_string())];
    let outcome = vm.run(demo().call_static("explode", args, Type::Void));
    assert!(matches!(outcome, Err(Error::Exception(_))));
    assert_eq!(vm.released, vec![FIRST_STRING]);
    assert_eq!(vm.log().last(), Some(&"release"));
    assert_eq!(vm.pending, None);
    assert_eq!(vm.cleared, 1);
}

#[test]
fn a_call_without_string_arguments_releases_nothing() {
    let mut vm = Vm::new();
    let object = new_counter(&mut vm, 5);
    assert_eq!(vm.run(object.call("current", vec![], Type::Int)), Ok(Value::Int(5)));
    assert!(matches!(vm.run(object.call("fail", vec![], Type::Void)), Err(Error::Exception(_))));
    assert!(vm.released.is_empty());
}

#[test]
fn object_arguments_are_named_by_the_runtime() {
    let mut vm = Vm::new();
    let object = new_counter(&mut vm, 5);
    vm.log.clear();
    let args = vec![Value::Object(object), Value::Long(-1), Value::Object(object)];
    let outcome = vm.run(object.call("same", args, Type::Boolean));
    assert_eq!(outcome, Ok(Value::Boolean(true)));
    assert_eq!(
        vm.log(),
        vec![
            "class", "class", "method", "invoke", "read", "class", "method", "invoke", "read",
            "method", "invoke", "check"
        ]
    );
}

#[test]
fn the_first_request_of_each_call() {
    let first = demo().call_static("add", vec![Value::Int(1), Value::Int(9)], Type::Int);
    match first {
        Turn::Ask(_, request) => assert_eq!(
            request,
            Request::Method {
                class: DEMO,
                name: "add".to_string(),
                signature: "(II)I".to_string(),
                is_static: true
            }
        ),
        Turn::Done(_) => panic!("ended at once"),
    }
    let first = demo().instantiate(vec![Value::Boolean(true)]);
    match first {
        Turn::Ask(_, request) => assert_eq!(
            request,
            Request::Method {
                class: DEMO,
                name: "<init>".to_string(),
                signature: "(Z)V".to_string(),
                is_static: false
            }
        ),
        Turn::Done(_) => panic!("ended at once"),
    }
    let first = Object { raw: 77 }.call("run", vec![], Type::Void);
    match first {
        Turn::Ask(_, request) => assert_eq!(request, Request::ObjectClass { object: 77 }),
        Turn::Done(_) => panic!("ended at once"),
    }
}

#[test]
fn the_call_goes_through_the_slot_of_the_return_type() {
    let mut turn = demo().call_static("f", vec![Value::Byte(-1), Value::Char('A')], Type::Double);
    let mut requests = Vec::new();
    let replies = vec![Reply::Handle(42), Reply::Cell(jvalue { data: 1.0f64.to_bits() })];
    for reply in replies {
        match turn {
            Turn::Ask(call, request) => {
                requests.push(request);
                turn = call.step(reply);
            }
            Turn::Done(_) => panic!("ended early"),
        }
    }
    assert_eq!(
        requests[1],
        Request::Invoke {
            slot: 140,
            target: DEMO,
            method: 42,
            args: vec![jvalue { data: u64::MAX }, jvalue { data: 0x41 }],
        }
    );
    match turn {
        Turn::Ask(call, request) => {
            assert_eq!(request, Request::ExceptionCheck);
            assert_eq!(
                done(call.step(Reply::Flag(false))),
                Some(Ok(Value::Double(1.0f64.to_bits())))
            );
        }
        Turn::Done(_) => panic!("ended before the exception check"),
    }
}

#[test]
fn a_call_takes_only_replies_of_the_kind_it_waits_for() {
    match demo().call_static("add", vec![], Type::Int) {
        Turn::Ask(call, _) => {
            assert!(call.expects(&Reply::Handle(0)));
            assert!(call.expects(&Reply::Handle(5)));
            assert!(!call.expects(&Reply::Flag(true)));
            assert!(!call.expects(&Reply::Nothing));
            assert!(!call.expects(&Reply::Text(String::new())));
            assert!(!call.expects(&Reply::Cell(jvalue { data: 0 })));
        }
        Turn::Done(_) => panic!("ended at once"),
    }
}

#[test]
fn the_name_of_a_class() {
    let mut vm = Vm::new();
    let mut turn = demo().name();
    let name = loop {
        match turn {
            Turn::Ask(query, request) => {
                let reply = vm.perform(request);
                assert!(query.expects(&reply));
                turn = query.step(reply);
            }
            Turn::Done(name) => break name,
        }
    };
    assert_eq!(name, "Demo");
    assert_eq!(vm.log(), vec!["method", "invoke", "read"]);
}

#[test]
fn the_name_of_the_class_of_an_object() {
    let first = Naming::of_object(FIRST_OBJECT);
    let query = match first {
        Turn::Ask(query, request) => {
            assert_eq!(request, Request::ObjectClass { object: FIRST_OBJECT });
            query
        }
        Turn::Done(_) => panic!("ended at once"),
    };
    assert_eq!(query, Naming::AwaitClass { object: FIRST_OBJECT });
    let query = match query.step(Reply::Handle(DEMO)) {
        Turn::Ask(query, request) => {
            assert_eq!(
                request,
                Request::Method {
                    class: DEMO,
                    name: "getName".to_string(),
                    signature: "()Ljava/lang/String;".to_string(),
                    is_static: false
                }
            );
            query
        }
        Turn::Done(_) => panic!("ended early"),
    };
    let query = match query.step(Reply::Handle(6)) {
        Turn::Ask(query, request) => {
            assert_eq!(
                request,
                Request::Invoke { slot: 34, target: DEMO, method: 6, args: vec![] }
            );
            query
        }
        Turn::Done(_) => panic!("ended early"),
    };
    let query = match query.step(Reply::Cell(jvalue { data: 5000 })) {
        Turn::Ask(query, request) => {
            assert_eq!(request, Request::ReadString { string: 5000 });
            query
        }
        Turn::Done(_) => panic!("ended early"),
    };
    assert_eq!(done(query.step(Reply::Text("Demo".to_string()))), Some("Demo".to_string()));
}

#[test]
fn a_class_that_was_found_is_a_class() {
    assert_eq!(Class::found(DEMO).ok(), Some(Class { raw: DEMO }));
}

#[test]
fn a_class_that_was_not_found_is_translated() {
    let mut vm = Vm::new();
    vm.pending = Some(THROWN);
    let mut turn = match Class::found(0) {
        Err(turn) => turn,
        Ok(class) => panic!("{:?}", class),
    };
    let error = loop {
        match turn {
            Turn::Ask(translation, request) => {
                let reply = vm.perform(request);
                assert!(translation.expects(&reply));
                turn = translation.step(reply);
            }
            Turn::Done(error) => break error,
        }
    };
    match error {
        Error::Exception(info) => assert_eq!(info.name(), "java.lang.IllegalStateException"),
        other => panic!("{:?}", other),
    }
    assert_eq!(vm.pending, None);
    assert_eq!(vm.cleared, 1);
}

#[test]
fn a_translation_begins_by_taking_and_clearing_the_exception() {
    let translation = match Error::from_exception() {
        Turn::Ask(translation, request) => {
            assert_eq!(request, Request::ExceptionOccurred);
            translation
        }
        Turn::Done(_) => panic!("ended at once"),
    };
    assert_eq!(translation, Translation::AwaitThrown);
    match translation.step(Reply::Handle(THROWN)) {
        Turn::Ask(translation, request) => {
            assert_eq!(request, Request::ExceptionClear);
            assert_eq!(translation, Translation::AwaitCleared { thrown: THROWN });
            match translation.step(Reply::Nothing) {
                Turn::Ask(_, request) => {
                    assert_eq!(request, Request::ObjectClass { object: THROWN })
                }
                Turn::Done(_) => panic!("ended early"),
            }
        }
        Turn::Done(_) => panic!("ended early"),
    }
}

#[test]
fn a_translation_does_not_go_on_without_a_message() {
    let state = Translation::AwaitMethod { thrown: THROWN, name: "a.B".to_string(), class: 3 };
    assert!(!state.expects(&Reply::Handle(0)));
    assert!(state.expects(&Reply::Handle(1)));
    let state = Translation::AwaitFlag { name: "a.B".to_string(), string: 3 };
    assert!(!state.expects(&Reply::Flag(true)));
    assert!(state.expects(&Reply::Flag(false)));
}
