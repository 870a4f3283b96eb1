use reactive_tui::environment::{
    create_signal, create_tracking_scope, provide_context, use_context, use_context_option,
};
use reactive_tui::errors::Error;
use reactive_tui::expr::{BinOp, Expr, ReactOp, UnOp};
use reactive_tui::nodes::ReactiveNode;
use reactive_tui::runtime::Runtime;
use reactive_tui::signal::{SignalGet, SignalSet};
use reactive_tui::value::Value;

fn c_int(i: i64) -> Expr {
    Expr::Const(Value::Int(i))
}

fn c_text(s: &str) -> Expr {
    Expr::Const(Value::Text(s.as_bytes().to_vec()))
}

fn v_text(s: &str) -> Value {
    Value::Text(s.as_bytes().to_vec())
}

fn v_pair(a: Value, b: Value) -> Value {
    Value::PairV(Box::new(a), Box::new(b))
}

fn lete(x: u64, a: Expr, b: Expr) -> Expr {
    Expr::Let(x, Box::new(a), Box::new(b))
}

fn read(a: Expr) -> Expr {
    Expr::Read(Box::new(a))
}

fn var(x: u64) -> Expr {
    Expr::Var(x)
}

fn pair(a: Expr, b: Expr) -> Expr {
    Expr::Bin(BinOp::MakePair, Box::new(a), Box::new(b))
}

fn eqv(a: Expr, b: Expr) -> Expr {
    Expr::Bin(BinOp::EqVal, Box::new(a), Box::new(b))
}

fn concat(a: Expr, b: Expr) -> Expr {
    Expr::Bin(BinOp::Concat, Box::new(a), Box::new(b))
}

fn ite(c: Expr, a: Expr, b: Expr) -> Expr {
    Expr::If(Box::new(c), Box::new(a), Box::new(b))
}

fn upper(a: Expr) -> Expr {
    Expr::Un(UnOp::Upper, Box::new(a))
}

fn lower(a: Expr) -> Expr {
    Expr::Un(UnOp::Lower, Box::new(a))
}

fn first(a: Expr) -> Expr {
    Expr::Un(UnOp::First, Box::new(a))
}

fn runs(a: Expr) -> Expr {
    Expr::Runs(Box::new(a))
}

fn write(a: Expr, b: Expr) -> Expr {
    Expr::Write(Box::new(a), Box::new(b))
}

fn memo(a: Expr) -> Expr {
    Expr::CreateMemo(Box::new(a))
}

fn selector(a: Expr) -> Expr {
    Expr::CreateSelector(Box::new(a))
}

fn signal(a: Expr) -> Expr {
    Expr::CreateSignal(Box::new(a))
}

fn on_msg(tag: u64, t: Expr, op: ReactOp) -> Expr {
    Expr::OnMsg(tag, Box::new(t), op)
}

fn send_e(tag: u64, a: Expr) -> Expr {
    Expr::Send(tag, Box::new(a))
}

fn run(p: Expr) -> (Value, usize) {
    let mut rt = Runtime::new();
    let got = create_tracking_scope(&mut rt, &p).expect("scope run failed");
    let left = rt.node_count();
    (got, left)
}

/// Open a scope by hand so the signal API can be driven directly.
fn manual_scope() -> Runtime {
    let mut rt = Runtime::new();
    let root = rt.nodes.arena.insert(ReactiveNode::empty(0));
    rt.next_stamp = 1;
    rt.tracker = Some(root);
    rt
}

#[test]
fn test_signal_dependancy_tracking() {
    // S = "Foo"; M1 = upper(S); M2 = lower(M1); read all, set S = "Bar", read all.
    let triple = || pair(read(var(0)), pair(read(var(1)), read(var(2))));
    let p = lete(
        0,
        signal(c_text("Foo")),
        lete(
            1,
            memo(upper(read(var(0)))),
            lete(
                2,
                memo(lower(read(var(1)))),
                pair(
                    triple(),
                    lete(3, write(var(0), c_text("Bar")), triple()),
                ),
            ),
        ),
    );
    let expected = v_pair(
        v_pair(v_text("Foo"), v_pair(v_text("FOO"), v_text("foo"))),
        v_pair(v_text("Bar"), v_pair(v_text("BAR"), v_text("bar"))),
    );
    let (got, left) = run(p);
    assert!(got.eq_value(&expected), "got {:?}", got);
    assert_eq!(left, 0);
}

#[test]
fn test_signal_dependancy_nested() {
    // The same scenario run inside a memo; everything is cleaned up after.
    let triple = || pair(read(var(0)), pair(read(var(1)), read(var(2))));
    let inner = lete(
        0,
        signal(c_text("Foo")),
        lete(
            1,
            memo(upper(read(var(0)))),
            lete(
                2,
                memo(lower(read(var(1)))),
                pair(
                    triple(),
                    lete(3, write(var(0), c_text("Bar")), triple()),
                ),
            ),
        ),
    );
    let p = lete(9, memo(inner), read(var(9)));
    let expected = v_pair(
        v_pair(v_text("Foo"), v_pair(v_text("FOO"), v_text("foo"))),
        v_pair(v_text("Bar"), v_pair(v_text("BAR"), v_text("bar"))),
    );
    let (got, left) = run(p);
    assert!(got.eq_value(&expected), "got {:?}", got);
    assert_eq!(left, 0);
}

#[test]
fn test_signal_dependancy_tracks_latest() {
    // A memo reading s1 or s2 depending on a trigger: once it stops reading
    // s1, writes to s1 no longer re-run it.
    let p = lete(
        0,
        signal(c_int(0)),
        lete(
            1,
            signal(c_text("foo")),
            lete(
                2,
                signal(c_text("bar")),
                lete(
                    3,
                    memo(ite(
                        eqv(read(var(0)), c_int(0)),
                        read(var(1)),
                        read(var(2)),
                    )),
                    pair(
                        read(var(3)),
                        lete(
                            4,
                            write(var(0), c_int(1)),
                            pair(
                                read(var(3)),
                                pair(
                                    runs(var(3)),
                                    lete(
                                        5,
                                        write(var(1), c_text("FOO")),
                                        runs(var(3)),
                                    ),
                                ),
                            ),
                        ),
                    ),
                ),
            ),
        ),
    );
    let expected = v_pair(
        v_text("foo"),
        v_pair(
            v_text("bar"),
            v_pair(Value::Int(2), Value::Int(2)),
        ),
    );
    let (got, left) = run(p);
    assert!(got.eq_value(&expected), "got {:?}", got);
    assert_eq!(left, 0);
}

#[test]
fn test_signal_selector() {
    // A selector on the first field of a compound value cuts propagation off
    // when that field does not change.
    let p = lete(
        0,
        signal(Expr::Const(v_pair(Value::Int(0), Value::Int(0)))),
        lete(
            1,
            selector(first(read(var(0)))),
            lete(
                2,
                memo(read(var(1))),
                pair(
                    runs(var(2)),
                    lete(
                        3,
                        write(var(0), Expr::Const(v_pair(Value::Int(0), Value::Int(10)))),
                        pair(
                            pair(read(var(2)), runs(var(2))),
                            lete(
                                4,
                                write(
                                    var(0),
                                    Expr::Const(v_pair(Value::Int(10), Value::Int(10))),
                                ),
                                pair(read(var(2)), runs(var(2))),
                            ),
                        ),
                    ),
                ),
            ),
        ),
    );
    let expected = v_pair(
        Value::Int(1),
        v_pair(
            v_pair(Value::Int(0), Value::Int(1)),
            v_pair(Value::Int(10), Value::Int(2)),
        ),
    );
    let (got, left) = run(p);
    assert!(got.eq_value(&expected), "got {:?}", got);
    assert_eq!(left, 0);
}

#[test]
fn test_cleanup() {
    // A cleanup registered inside a derived node's run fires exactly once,
    // when the owning run is superseded.
    let p = lete(
        0,
        signal(c_int(0)),
        lete(
            1,
            signal(c_int(0)),
            lete(
                2,
                memo(ite(
                    eqv(read(var(0)), c_int(0)),
                    memo(Expr::OnCleanup(
                        Box::new(var(1)),
                        ReactOp::AddConst(Value::Int(1)),
                    )),
                    memo(Expr::Const(Value::Unit)),
                )),
                lete(3, write(var(0), c_int(1)), read(var(1))),
            ),
        ),
    );
    let (got, left) = run(p);
    assert!(got.eq_value(&Value::Int(1)), "executed cleanup, got {:?}", got);
    assert_eq!(left, 0);
}

#[test]
fn test_recievers_cleaned_up() {
    // Receivers registered inside a branch stop receiving when the branch
    // switches away and resume when it switches back.
    let p = lete(
        0,
        signal(c_int(0)),
        lete(
            1,
            signal(c_int(0)),
            lete(
                2,
                memo(ite(
                    eqv(read(var(1)), c_int(0)),
                    lete(
                        5,
                        on_msg(7, var(0), ReactOp::SetPayload),
                        memo(on_msg(7, var(0), ReactOp::SetPayload)),
                    ),
                    Expr::Const(Value::Unit),
                )),
                lete(
                    3,
                    send_e(7, c_int(10)),
                    pair(
                        read(var(0)),
                        lete(
                            4,
                            write(var(1), c_int(1)),
                            lete(
                                6,
                                send_e(7, c_int(20)),
                                pair(
                                    read(var(0)),
                                    lete(
                                        8,
                                        write(var(1), c_int(0)),
                                        lete(9, send_e(7, c_int(20)), read(var(0))),
                                    ),
                                ),
                            ),
                        ),
                    ),
                ),
            ),
        ),
    );
    let expected = v_pair(
        Value::Int(10),
        v_pair(Value::Int(10), Value::Int(20)),
    );
    let (got, left) = run(p);
    assert!(got.eq_value(&expected), "got {:?}", got);
    assert_eq!(left, 0);
}

#[test]
fn test_recievers_send_deep() {
    // Nested derived scopes each observing one send exactly once per send.
    let p = lete(
        0,
        signal(c_int(0)),
        lete(
            1,
            memo(memo(memo(on_msg(7, var(0), ReactOp::AddPayload)))),
            lete(
                2,
                send_e(7, c_int(10)),
                pair(
                    read(var(0)),
                    lete(3, send_e(7, c_int(10)), read(var(0))),
                ),
            ),
        ),
    );
    let expected = v_pair(Value::Int(10), Value::Int(20));
    let (got, left) = run(p);
    assert!(got.eq_value(&expected), "got {:?}", got);
    assert_eq!(left, 0);
}

#[test]
fn test_recievers_cleanup_on_send() {
    // A handler fired mid-delivery re-registers receivers for the next
    // delivery without corrupting the handler table.
    let p = lete(
        0,
        signal(c_int(0)),
        lete(
            1,
            signal(Expr::Const(v_pair(v_text("init"), Value::Int(0)))),
            lete(
                2,
                on_msg(7, var(0), ReactOp::SetPayload),
                lete(
                    3,
                    memo(ite(
                        eqv(read(var(0)), c_int(10)),
                        on_msg(7, var(1), ReactOp::SetTagged(v_text("even"))),
                        on_msg(7, var(1), ReactOp::SetTagged(v_text("odd"))),
                    )),
                    lete(
                        4,
                        send_e(7, c_int(10)),
                        pair(
                            read(var(1)),
                            lete(
                                5,
                                send_e(7, c_int(11)),
                                pair(
                                    read(var(1)),
                                    lete(6, send_e(7, c_int(10)), read(var(1))),
                                ),
                            ),
                        ),
                    ),
                ),
            ),
        ),
    );
    let expected = v_pair(
        v_pair(v_text("even"), Value::Int(10)),
        v_pair(
            v_pair(v_text("odd"), Value::Int(11)),
            v_pair(v_text("even"), Value::Int(10)),
        ),
    );
    let (got, left) = run(p);
    assert!(got.eq_value(&expected), "got {:?}", got);
    assert_eq!(left, 0);
}

#[test]
fn test_memo_macro() {
    let p = lete(
        0,
        signal(c_text("one")),
        lete(
            1,
            signal(c_text("two")),
            lete(
                2,
                memo(concat(read(var(0)), concat(c_text(" "), read(var(1))))),
                lete(
                    3,
                    memo(concat(read(var(0)), concat(c_text("-"), read(var(1))))),
                    pair(read(var(2)), read(var(3))),
                ),
            ),
        ),
    );
    let expected = v_pair(v_text("one two"), v_text("one-two"));
    let (got, left) = run(p);
    assert!(got.eq_value(&expected), "got {:?}", got);
    assert_eq!(left, 0);
}

#[test]
fn test_round_trip_read_write() {
    // Creating a cell with v, get() returns v; after set(v2), get() returns v2.
    let mut rt = manual_scope();
    let s = create_signal(&mut rt, Value::Int(41)).expect("create");
    let got = s.get(&mut rt).expect("get");
    assert!(got.eq_value(&Value::Int(41)));
    assert!(s.set(&mut rt, Value::Int(42)).is_none());
    let got2 = s.get(&mut rt).expect("get");
    assert!(got2.eq_value(&Value::Int(42)));
}

#[test]
fn test_disposal_safety() {
    // A disposed handle fails loudly on every operation; it never reads
    // stale data.
    let mut rt = manual_scope();
    let s = create_signal(&mut rt, Value::Int(5)).expect("create");
    rt.dispose(s.0);
    assert!(matches!(s.get(&mut rt), Err(Error::Disposed)));
    assert_eq!(s.set(&mut rt, Value::Int(6)), Some(Error::Disposed));
    assert!(matches!(rt.read_untracked(s.0), Err(Error::Disposed)));
}

#[test]
fn test_outside_tracking_scope() {
    let mut rt = Runtime::new();
    match create_signal(&mut rt, Value::Int(1)) {
        Err(Error::OutsideTrackingScope) => {}
        other => panic!("expected OutsideTrackingScope, got {:?}", other),
    }
}

#[test]
fn test_context_lookup() {
    let mut rt = manual_scope();
    assert!(provide_context(&mut rt, 1, Value::Int(7)).is_none());
    let got = use_context(&rt, 1).expect("present");
    assert!(got.eq_value(&Value::Int(7)));
    assert!(matches!(use_context(&rt, 2), Err(Error::MissingContext)));
    assert!(use_context_option(&rt, 2).is_none());
}
