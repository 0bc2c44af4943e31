use mio::Poll;
use sockfw::chan::{accept_on, connect_on, recv_on, send_on, try_proceed, Slot};
use sockfw::model::{PairInfo, Side};
use sockfw::pair::Pair;
use sockfw::relay::{handle_once, handle_rw, send_all};
use sockfw::{
    Chan, Connector, Fw, FwConf, FwError, FwPairError, Listener, MidChan, NextState, Pollable,
    State,
};
use std::cell::RefCell;
use std::collections::VecDeque;
use std::io::{Error as IoError, ErrorKind};
use std::rc::Rc;

/// What one call of `recv` is scripted to give.
#[derive(Debug, Clone)]
enum Read {
    Data(Vec<u8>),
    Closed,
    Fail,
}

/// The far end of a mock endpoint, shared between the test and the endpoint.
#[derive(Debug, Default)]
struct Wire {
    reads: VecDeque<Read>,
    written: Vec<u8>,
    write_cap: Option<usize>,
    write_fails: bool,
    registered: Option<usize>,
    register_fails: bool,
    registrations: usize,
    deregistrations: usize,
    recv_calls: usize,
    dropped: bool,
}

type Shared = Rc<RefCell<Wire>>;

fn wire() -> Shared {
    Rc::new(RefCell::new(Wire::default()))
}

fn register(w: &Shared, tok: usize) -> Result<(), IoError> {
    let mut w = w.borrow_mut();
    if w.register_fails {
        return Err(IoError::new(ErrorKind::Other, "refused"));
    }
    if w.registered.is_some() {
        return Err(IoError::new(ErrorKind::AlreadyExists, "registered twice"));
    }
    w.registered = Some(tok);
    w.registrations += 1;
    Ok(())
}

fn deregister(w: &Shared) -> Result<(), IoError> {
    let mut w = w.borrow_mut();
    if w.registered.is_none() {
        return Err(IoError::new(ErrorKind::NotFound, "not registered"));
    }
    w.registered = None;
    w.deregistrations += 1;
    Ok(())
}

#[derive(Debug)]
struct MockChan {
    w: Shared,
}

impl Drop for MockChan {
    fn drop(&mut self) {
        self.w.borrow_mut().dropped = true;
    }
}

impl Chan for MockChan {
    type Err = &'static str;

    fn send(&mut self, buff: &[u8]) -> Result<usize, FwError<&'static str>> {
        let mut w = self.w.borrow_mut();
        if w.write_fails {
            return Err(FwError::Io("write failed"));
        }
        let n = match w.write_cap {
            Some(cap) => cap.min(buff.len()),
            None => buff.len(),
        };
        w.written.extend_from_slice(&buff[..n]);
        Ok(n)
    }

    fn recv(&mut self, buff: &mut [u8]) -> Result<Option<usize>, FwError<&'static str>> {
        let mut w = self.w.borrow_mut();
        w.recv_calls += 1;
        match w.reads.pop_front() {
            None => Ok(None),
            Some(Read::Closed) => Ok(Some(0)),
            Some(Read::Fail) => Err(FwError::Io("read failed")),
            Some(Read::Data(mut bytes)) => {
                let n = bytes.len().min(buff.len());
                let rest = bytes.split_off(n);
                buff[..n].copy_from_slice(&bytes);
                if !rest.is_empty() {
                    w.reads.push_front(Read::Data(rest));
                }
                Ok(Some(n))
            }
        }
    }
}

impl Pollable for MockChan {
    fn register(&self, _poll: &Poll, tok: usize) -> Result<(), IoError> {
        register(&self.w, tok)
    }

    fn deregister(&self, _poll: &Poll) -> Result<(), IoError> {
        deregister(&self.w)
    }
}

/// A handshake that needs `waits` more steps, and then completes or fails.
#[derive(Debug)]
struct MockMid {
    w: Shared,
    waits: usize,
    fails: bool,
}

impl MidChan for MockMid {
    type Err = &'static str;
    type C = MockChan;

    fn try_channel(
        self,
        _poll: &Poll,
    ) -> Result<NextState<&'static str, MockChan, MockMid>, FwError<&'static str>> {
        if self.waits > 0 {
            return Ok(NextState::Pending(MockMid { w: self.w, waits: self.waits - 1, fails: self.fails }));
        }
        if self.fails {
            let _ = deregister(&self.w);
            self.w.borrow_mut().dropped = true;
            return Err(FwError::Io("handshake failed"));
        }
        Ok(NextState::Active(MockChan { w: self.w }))
    }
}

impl Pollable for MockMid {
    fn register(&self, _poll: &Poll, tok: usize) -> Result<(), IoError> {
        register(&self.w, tok)
    }

    fn deregister(&self, _poll: &Poll) -> Result<(), IoError> {
        deregister(&self.w)
    }
}

type Next = NextState<&'static str, MockChan, MockMid>;

fn pending(w: &Shared, waits: usize) -> Next {
    NextState::Pending(MockMid { w: w.clone(), waits, fails: false })
}

fn failing(w: &Shared, waits: usize) -> Next {
    NextState::Pending(MockMid { w: w.clone(), waits, fails: true })
}

fn active(w: &Shared) -> Next {
    NextState::Active(MockChan { w: w.clone() })
}

#[derive(Default)]
struct Script {
    accepts: VecDeque<Result<Option<Next>, FwError<&'static str>>>,
    accept_calls: usize,
    connects: VecDeque<Result<Next, FwError<&'static str>>>,
    connect_calls: usize,
    listener_token: Option<usize>,
}

struct MockListener {
    s: Rc<RefCell<Script>>,
}

impl Listener for MockListener {
    type Err = &'static str;
    type C = MockChan;
    type PC = MockMid;

    fn accept(&mut self) -> Result<Option<Next>, FwError<&'static str>> {
        let mut s = self.s.borrow_mut();
        s.accept_calls += 1;
        s.accepts.pop_front().unwrap_or(Ok(None))
    }
}

impl Pollable for MockListener {
    fn register(&self, _poll: &Poll, tok: usize) -> Result<(), IoError> {
        self.s.borrow_mut().listener_token = Some(tok);
        Ok(())
    }

    fn deregister(&self, _poll: &Poll) -> Result<(), IoError> {
        self.s.borrow_mut().listener_token = None;
        Ok(())
    }
}

struct MockConnector {
    s: Rc<RefCell<Script>>,
}

impl Connector for MockConnector {
    type Err = &'static str;
    type C = MockChan;
    type PC = MockMid;

    fn connect(&mut self) -> Result<Next, FwError<&'static str>> {
        let mut s = self.s.borrow_mut();
        s.connect_calls += 1;
        s.connects.pop_front().unwrap_or(Err(FwError::Io("nothing to dial")))
    }
}

type Engine = Fw<
    &'static str,
    MockChan,
    MockMid,
    &'static str,
    MockChan,
    MockMid,
    MockListener,
    MockConnector,
>;

fn engine(buffer: usize) -> (Engine, Rc<RefCell<Script>>) {
    let s = Rc::new(RefCell::new(Script::default()));
    let fw = Fw::new(MockListener { s: s.clone() }, MockConnector { s: s.clone() }, 16, 32, buffer)
        .expect("a notifier");
    (fw, s)
}

/// Queues one inbound and one outbound endpoint and lets the engine accept them.
fn accept_pair(fw: &mut Engine, s: &Rc<RefCell<Script>>, l: Next, r: Next) -> Result<(), FwPairError<&'static str, &'static str>> {
    s.borrow_mut().accepts.push_back(Ok(Some(l)));
    s.borrow_mut().connects.push_back(Ok(r));
    fw.handle_event(0)
}

/// Holds the engine's record of a pair against what the mock notifier was told.
fn assert_watch_matches(info: &PairInfo, l: &Shared, s: &Shared) {
    assert_eq!(l.borrow().registered.is_some(), info.l_watched);
    assert_eq!(s.borrow().registered.is_some(), info.s_watched);
    if info.l_watched {
        assert_eq!(l.borrow().registered, Some(2 * info.conn_id));
    }
    if info.s_watched {
        assert_eq!(s.borrow().registered, Some(2 * info.conn_id + 1));
    }
}

#[test]
fn new_engine_is_empty() {
    let (fw, _s) = engine(64);
    assert_eq!(fw.len(), 0);
    assert_eq!(fw.next_conn_id(), 1);
    assert_eq!(fw.event_buffer_size(), 32);
    assert_eq!(fw.client_buffer_size(), 64);
    assert_eq!(fw.pair(1), None);
}

#[test]
fn engine_from_conf_has_its_sizes() {
    let s = Rc::new(RefCell::new(Script::default()));
    let conf = FwConf::new(2048, 2048, 8192);
    let fw: Engine =
        Fw::from_conf(&conf, MockListener { s: s.clone() }, MockConnector { s: s.clone() })
            .expect("a notifier");
    assert_eq!(fw.event_buffer_size(), 2048);
    assert_eq!(fw.client_buffer_size(), 8192);
    assert_eq!(fw.next_conn_id(), 1);
    assert_eq!(fw.len(), 0);
}

#[test]
fn engine_around_a_given_notifier() {
    let s = Rc::new(RefCell::new(Script::default()));
    let poll = Poll::new().expect("a notifier");
    let fw: Engine = Fw::with_poll(
        MockListener { s: s.clone() },
        MockConnector { s: s.clone() },
        poll,
        4,
        5,
        6,
    );
    assert_eq!(fw.event_buffer_size(), 5);
    assert_eq!(fw.client_buffer_size(), 6);
    assert_eq!(fw.next_conn_id(), 1);
    assert_eq!(fw.len(), 0);
    let _: &Poll = fw.poll();
}

#[test]
fn listen_subscribes_the_listener_under_token_zero() {
    let (fw, s) = engine(64);
    assert_eq!(s.borrow().listener_token, None);
    assert!(fw.listen().is_ok());
    assert_eq!(s.borrow().listener_token, Some(0));
}

#[test]
fn plain_happy_path() {
    let (mut fw, s) = engine(8192);
    let (l, u) = (wire(), wire());
    assert!(accept_pair(&mut fw, &s, pending(&l, 0), pending(&u, 0)).is_ok());
    assert_eq!(fw.len(), 1);
    let info = fw.pair(1).expect("pair 1");
    assert_eq!(info.l, Slot::Active);
    assert_eq!(info.s, Slot::Active);
    assert_eq!((info.tok_l, info.tok_s), (2, 3));
    assert_eq!(info.buffer, 8192);
    assert_watch_matches(&info, &l, &u);

    l.borrow_mut().reads.push_back(Read::Data(b"hello".to_vec()));
    assert!(fw.handle_event(2).is_ok());
    assert_eq!(u.borrow().written, b"hello".to_vec());
    assert_eq!(fw.pair(1).unwrap().bytes_l_to_s, 5);
    assert_eq!(fw.pair(1).unwrap().bytes_s_to_l, 0);

    u.borrow_mut().reads.push_back(Read::Data(b"hello".to_vec()));
    assert!(fw.handle_event(3).is_ok());
    assert_eq!(l.borrow().written, b"hello".to_vec());
    let info = fw.pair(1).unwrap();
    assert_eq!(info.bytes_l_to_s, 5);
    assert_eq!(info.bytes_s_to_l, 5);

    l.borrow_mut().reads.push_back(Read::Closed);
    assert!(matches!(fw.handle_event(2), Err(FwPairError::Disconnected)));
    assert_eq!(fw.len(), 0);
    assert_eq!(fw.pair(1), None);
    assert_eq!(l.borrow().registered, None);
    assert_eq!(u.borrow().registered, None);
    assert!(l.borrow().dropped && u.borrow().dropped);
}

#[test]
fn handshake_delay_pauses_and_resumes_the_ready_side() {
    let (mut fw, s) = engine(64);
    let (l, u) = (wire(), wire());
    assert!(accept_pair(&mut fw, &s, pending(&l, 2), pending(&u, 0)).is_ok());
    let info = fw.pair(1).expect("pair 1");
    assert_eq!((info.l, info.s), (Slot::Pending, Slot::Active));
    assert!(info.l_watched);
    assert!(!info.s_watched);
    assert_watch_matches(&info, &l, &u);
    assert_eq!(u.borrow().registrations, 1);
    assert_eq!(u.borrow().deregistrations, 1);

    assert!(fw.handle_event(2).is_ok());
    let info = fw.pair(1).unwrap();
    assert_eq!((info.l, info.s), (Slot::Pending, Slot::Active));
    assert_watch_matches(&info, &l, &u);

    l.borrow_mut().reads.push_back(Read::Data(b"GET /".to_vec()));
    assert!(fw.handle_event(2).is_ok());
    let info = fw.pair(1).unwrap();
    assert_eq!((info.l, info.s), (Slot::Active, Slot::Active));
    assert!(info.l_watched && info.s_watched);
    assert_watch_matches(&info, &l, &u);
    assert_eq!(u.borrow().registered, Some(3));
    assert_eq!(u.borrow().registrations, 2);
    assert_eq!(u.borrow().written, b"GET /".to_vec());
    assert_eq!(info.bytes_l_to_s, 5);

    u.borrow_mut().reads.push_back(Read::Data(b"200".to_vec()));
    assert!(fw.handle_event(3).is_ok());
    assert_eq!(l.borrow().written, b"200".to_vec());
    assert_eq!(fw.pair(1).unwrap().bytes_s_to_l, 3);
}

#[test]
fn outbound_connect_fails() {
    let (mut fw, s) = engine(64);
    let l = wire();
    s.borrow_mut().accepts.push_back(Ok(Some(pending(&l, 0))));
    s.borrow_mut().connects.push_back(Err(FwError::Io("no such socket")));
    let r = fw.handle_event(0);
    assert!(matches!(r, Err(FwPairError::S(FwError::Io("no such socket")))));
    assert_eq!(fw.len(), 0);
    assert_eq!(fw.pair(1), None);
    assert_eq!(fw.next_conn_id(), 1);
    assert_eq!(l.borrow().registered, None);
    assert_eq!(l.borrow().registrations, 0);
    assert_eq!(Rc::strong_count(&l), 1);

    let (l2, u2) = (wire(), wire());
    assert!(accept_pair(&mut fw, &s, pending(&l2, 0), pending(&u2, 0)).is_ok());
    assert_eq!(fw.len(), 1);
    assert!(fw.pair(1).is_some());
}

#[test]
fn peer_half_close() {
    let (mut fw, s) = engine(64);
    let (l, u) = (wire(), wire());
    assert!(accept_pair(&mut fw, &s, pending(&l, 0), pending(&u, 0)).is_ok());
    l.borrow_mut().reads.push_back(Read::Data(vec![1, 2, 3]));
    l.borrow_mut().reads.push_back(Read::Closed);
    let r = fw.handle_event(2);
    assert!(matches!(r, Err(FwPairError::Disconnected)));
    assert_eq!(u.borrow().written, vec![1, 2, 3]);
    assert_eq!(fw.len(), 0);
    assert_eq!(l.borrow().registered, None);
    assert_eq!(u.borrow().registered, None);
    assert_eq!(l.borrow().deregistrations, 2);
    assert_eq!(u.borrow().deregistrations, 1);
}

#[test]
fn close_on_the_connector_side_ends_the_pair_too() {
    let (mut fw, s) = engine(64);
    let (l, u) = (wire(), wire());
    assert!(accept_pair(&mut fw, &s, pending(&l, 0), pending(&u, 0)).is_ok());
    u.borrow_mut().reads.push_back(Read::Closed);
    assert!(matches!(fw.handle_event(3), Err(FwPairError::Disconnected)));
    assert_eq!(fw.len(), 0);
}

#[test]
fn handshake_failure_at_a_later_event() {
    let (mut fw, s) = engine(64);
    let (l, u) = (wire(), wire());
    assert!(accept_pair(&mut fw, &s, failing(&l, 1), pending(&u, 0)).is_ok());
    let info = fw.pair(1).expect("pair 1");
    assert_eq!((info.l, info.s), (Slot::Pending, Slot::Active));
    let r = fw.handle_event(2);
    assert!(matches!(r, Err(FwPairError::L(FwError::Io("handshake failed")))));
    assert_eq!(fw.len(), 0);
    assert_eq!(fw.pair(1), None);
    assert_eq!(l.borrow().registered, None);
    assert_eq!(u.borrow().registered, None);
    assert!(l.borrow().dropped && u.borrow().dropped);
}

#[test]
fn handshake_failure_at_the_first_look() {
    let (mut fw, s) = engine(64);
    let (l, u) = (wire(), wire());
    let r = accept_pair(&mut fw, &s, failing(&l, 0), pending(&u, 0));
    assert!(matches!(r, Err(FwPairError::L(FwError::Io("handshake failed")))));
    assert_eq!(fw.len(), 0);
    assert_eq!(fw.next_conn_id(), 2);
    assert_eq!(l.borrow().registered, None);
    assert_eq!(u.borrow().registered, None);
    assert_eq!(Rc::strong_count(&l), 1);
    assert_eq!(Rc::strong_count(&u), 1);
}

#[test]
fn handshake_failure_on_the_connector_side() {
    let (mut fw, s) = engine(64);
    let (l, u) = (wire(), wire());
    assert!(accept_pair(&mut fw, &s, pending(&l, 3), failing(&u, 1)).is_ok());
    let r = fw.handle_event(3);
    assert!(matches!(r, Err(FwPairError::S(FwError::Io("handshake failed")))));
    assert_eq!(fw.len(), 0);
    assert_eq!(l.borrow().registered, None);
}

#[test]
fn seventh_pair_has_tokens_14_and_15() {
    let (mut fw, s) = engine(16);
    let mut wires = Vec::new();
    for _ in 0..7 {
        let (l, u) = (wire(), wire());
        assert!(accept_pair(&mut fw, &s, pending(&l, 0), pending(&u, 0)).is_ok());
        wires.push((l, u));
    }
    let info = fw.pair(7).expect("pair 7");
    assert_eq!(info.conn_id, 7);
    assert_eq!(info.tok_l, 14);
    assert_eq!(info.tok_s, 15);
    assert_eq!(wires[6].0.borrow().registered, Some(14));
    assert_eq!(wires[6].1.borrow().registered, Some(15));

    wires[6].1.borrow_mut().reads.push_back(Read::Data(b"from s".to_vec()));
    assert!(fw.handle_event(15).is_ok());
    assert_eq!(wires[6].0.borrow().written, b"from s".to_vec());
    assert_eq!(fw.pair(7).unwrap().bytes_s_to_l, 6);
    for k in 0..6 {
        assert!(wires[k].0.borrow().written.is_empty());
        assert_eq!(wires[k].0.borrow().recv_calls, 0);
        assert_eq!(wires[k].1.borrow().recv_calls, 0);
    }
}

#[test]
fn identifiers_start_at_one_and_are_never_reused() {
    let (mut fw, s) = engine(16);
    let mut keep = Vec::new();
    for expected in 1..=3usize {
        assert_eq!(fw.next_conn_id(), expected);
        let (l, u) = (wire(), wire());
        assert!(accept_pair(&mut fw, &s, pending(&l, 0), pending(&u, 0)).is_ok());
        assert_eq!(fw.pair(expected).map(|p| p.conn_id), Some(expected));
        keep.push((l, u));
    }
    assert!(fw.free(2).is_some());
    assert_eq!(fw.len(), 2);
    let (l, u) = (wire(), wire());
    assert!(accept_pair(&mut fw, &s, pending(&l, 0), pending(&u, 0)).is_ok());
    assert_eq!(fw.pair(2), None);
    assert_eq!(fw.pair(4).map(|p| (p.conn_id, p.tok_l, p.tok_s)), Some((4, 8, 9)));
    assert_eq!(fw.next_conn_id(), 5);
}

#[test]
fn nothing_waiting_issues_no_identifier() {
    let (mut fw, s) = engine(16);
    assert!(fw.handle_event(0).is_ok());
    assert_eq!(s.borrow().accept_calls, 1);
    assert_eq!(s.borrow().connect_calls, 0);
    assert_eq!(fw.len(), 0);
    assert_eq!(fw.next_conn_id(), 1);
}

#[test]
fn listener_failure_changes_nothing() {
    let (mut fw, s) = engine(16);
    s.borrow_mut().accepts.push_back(Err(FwError::Io("accept failed")));
    let r = fw.handle_event(0);
    assert!(matches!(r, Err(FwPairError::L(FwError::Io("accept failed")))));
    assert_eq!(s.borrow().connect_calls, 0);
    assert_eq!(fw.len(), 0);
    assert_eq!(fw.next_conn_id(), 1);
}

#[test]
fn counters_never_go_down() {
    let (mut fw, s) = engine(4);
    let (l, u) = (wire(), wire());
    assert!(accept_pair(&mut fw, &s, pending(&l, 0), pending(&u, 0)).is_ok());
    let mut last = (0usize, 0usize);
    let rounds: [(usize, usize); 5] = [(2, 3), (3, 0), (2, 9), (2, 0), (3, 1)];
    for (tok, n) in rounds {
        let w = if tok == 2 { &l } else { &u };
        if n > 0 {
            w.borrow_mut().reads.push_back(Read::Data(vec![7; n]));
        }
        assert!(fw.handle_event(tok).is_ok());
        let info = fw.pair(1).unwrap();
        assert!(info.bytes_l_to_s >= last.0);
        assert!(info.bytes_s_to_l >= last.1);
        last = (info.bytes_l_to_s, info.bytes_s_to_l);
    }
    assert_eq!(last, (12, 1));
    assert_eq!(u.borrow().written.len(), 12);
    assert_eq!(l.borrow().written.len(), 1);
}

#[test]
fn no_relay_while_one_side_is_pending() {
    let (mut fw, s) = engine(64);
    let (l, u) = (wire(), wire());
    assert!(accept_pair(&mut fw, &s, pending(&l, 5), pending(&u, 0)).is_ok());
    u.borrow_mut().reads.push_back(Read::Data(b"early".to_vec()));
    for _ in 0..3 {
        assert!(fw.handle_event(3).is_ok());
        assert!(fw.handle_event(2).is_ok());
        let info = fw.pair(1).unwrap();
        assert_eq!((info.l, info.s), (Slot::Pending, Slot::Active));
        assert_eq!((info.bytes_l_to_s, info.bytes_s_to_l), (0, 0));
        assert_watch_matches(&info, &l, &u);
    }
    assert_eq!(u.borrow().recv_calls, 0);
    assert_eq!(l.borrow().recv_calls, 0);
    assert!(l.borrow().written.is_empty());
    assert_eq!(u.borrow().reads.len(), 1);
}

#[test]
fn listener_events_leave_the_pairs_alone() {
    let (mut fw, s) = engine(64);
    let (l, u) = (wire(), wire());
    assert!(accept_pair(&mut fw, &s, pending(&l, 0), pending(&u, 0)).is_ok());
    l.borrow_mut().reads.push_back(Read::Data(b"wait".to_vec()));
    let before = fw.pair(1);
    assert!(fw.handle_event(0).is_ok());
    assert_eq!(fw.pair(1), before);
    assert_eq!(l.borrow().recv_calls, 0);
    assert_eq!(u.borrow().recv_calls, 0);
    assert!(u.borrow().written.is_empty());
}

#[test]
fn pair_events_never_accept() {
    let (mut fw, s) = engine(64);
    let (l, u) = (wire(), wire());
    assert!(accept_pair(&mut fw, &s, pending(&l, 0), pending(&u, 0)).is_ok());
    let (l2, u2) = (wire(), wire());
    s.borrow_mut().accepts.push_back(Ok(Some(pending(&l2, 0))));
    s.borrow_mut().connects.push_back(Ok(pending(&u2, 0)));
    let calls = (s.borrow().accept_calls, s.borrow().connect_calls);
    for tok in [1usize, 2, 3, 4, 5, 99] {
        let _ = fw.handle_event(tok);
    }
    assert_eq!((s.borrow().accept_calls, s.borrow().connect_calls), calls);
    assert_eq!(fw.len(), 1);
    assert_eq!(fw.next_conn_id(), 2);
}

#[test]
fn token_without_a_pair_is_lost() {
    let (mut fw, s) = engine(64);
    let (l, u) = (wire(), wire());
    assert!(accept_pair(&mut fw, &s, pending(&l, 0), pending(&u, 0)).is_ok());
    let before = fw.pair(1);
    assert!(matches!(fw.handle_event(1), Err(FwPairError::Lost)));
    assert!(matches!(fw.handle_event(4), Err(FwPairError::Lost)));
    assert!(matches!(fw.handle_event(99), Err(FwPairError::Lost)));
    assert_eq!(fw.len(), 1);
    assert_eq!(fw.pair(1), before);
}

#[test]
fn free_twice_is_free_once() {
    let (mut fw, s) = engine(64);
    let (l, u) = (wire(), wire());
    assert!(accept_pair(&mut fw, &s, pending(&l, 0), pending(&u, 0)).is_ok());
    let first = fw.free(1);
    assert!(matches!(first, Some((Ok(()), Ok(())))));
    assert_eq!(fw.len(), 0);
    assert_eq!(l.borrow().registered, None);
    assert_eq!(u.borrow().registered, None);
    assert!(fw.free(1).is_none());
    assert!(fw.free(7).is_none());
    assert_eq!(fw.len(), 0);
    assert_eq!(l.borrow().deregistrations, 2);
    assert_eq!(u.borrow().deregistrations, 1);
}

#[test]
fn free_of_a_paused_side_reports_the_notifier() {
    let (mut fw, s) = engine(64);
    let (l, u) = (wire(), wire());
    assert!(accept_pair(&mut fw, &s, pending(&l, 3), pending(&u, 0)).is_ok());
    let r = fw.free(1).expect("pair 1");
    assert!(r.0.is_ok());
    assert!(r.1.is_err());
    assert_eq!(fw.len(), 0);
}

#[test]
fn short_writes_are_completed_within_the_event() {
    let (mut fw, s) = engine(64);
    let (l, u) = (wire(), wire());
    assert!(accept_pair(&mut fw, &s, pending(&l, 0), pending(&u, 0)).is_ok());
    u.borrow_mut().write_cap = Some(2);
    l.borrow_mut().reads.push_back(Read::Data(b"hello world".to_vec()));
    assert!(fw.handle_event(2).is_ok());
    assert_eq!(u.borrow().written, b"hello world".to_vec());
    assert_eq!(fw.pair(1).unwrap().bytes_l_to_s, 11);
}

#[test]
fn chunks_larger_than_the_buffer_arrive_whole_and_in_order() {
    let (mut fw, s) = engine(4);
    let (l, u) = (wire(), wire());
    assert!(accept_pair(&mut fw, &s, pending(&l, 0), pending(&u, 0)).is_ok());
    let bytes: Vec<u8> = (0..=40u8).collect();
    l.borrow_mut().reads.push_back(Read::Data(bytes.clone()));
    u.borrow_mut().write_cap = Some(3);
    assert!(fw.handle_event(2).is_ok());
    assert_eq!(u.borrow().written, bytes);
    assert_eq!(fw.pair(1).unwrap().bytes_l_to_s, 41);
    assert_eq!(fw.pair(1).unwrap().buffer, 4);
}

#[test]
fn a_write_that_takes_nothing_ends_the_pair() {
    let (mut fw, s) = engine(64);
    let (l, u) = (wire(), wire());
    assert!(accept_pair(&mut fw, &s, pending(&l, 0), pending(&u, 0)).is_ok());
    u.borrow_mut().write_cap = Some(0);
    l.borrow_mut().reads.push_back(Read::Data(b"x".to_vec()));
    let r = fw.handle_event(2);
    assert!(matches!(r, Err(FwPairError::S(FwError::Disconnected))));
    assert_eq!(fw.len(), 0);
}

#[test]
fn a_failed_write_ends_the_pair_on_the_writing_side() {
    let (mut fw, s) = engine(64);
    let (l, u) = (wire(), wire());
    assert!(accept_pair(&mut fw, &s, pending(&l, 0), pending(&u, 0)).is_ok());
    u.borrow_mut().write_fails = true;
    l.borrow_mut().reads.push_back(Read::Data(b"x".to_vec()));
    assert!(matches!(fw.handle_event(2), Err(FwPairError::S(FwError::Io("write failed")))));
    assert_eq!(fw.len(), 0);

    let (l, u) = (wire(), wire());
    assert!(accept_pair(&mut fw, &s, pending(&l, 0), pending(&u, 0)).is_ok());
    l.borrow_mut().write_fails = true;
    u.borrow_mut().reads.push_back(Read::Data(b"x".to_vec()));
    assert!(matches!(fw.handle_event(5), Err(FwPairError::L(FwError::Io("write failed")))));
    assert_eq!(fw.len(), 0);
}

#[test]
fn a_failed_read_ends_the_pair_on_the_reading_side() {
    let (mut fw, s) = engine(64);
    let (l, u) = (wire(), wire());
    assert!(accept_pair(&mut fw, &s, pending(&l, 0), pending(&u, 0)).is_ok());
    l.borrow_mut().reads.push_back(Read::Fail);
    assert!(matches!(fw.handle_event(2), Err(FwPairError::L(FwError::Io("read failed")))));
    assert_eq!(fw.len(), 0);

    let (l, u) = (wire(), wire());
    assert!(accept_pair(&mut fw, &s, pending(&l, 0), pending(&u, 0)).is_ok());
    u.borrow_mut().reads.push_back(Read::Fail);
    assert!(matches!(fw.handle_event(5), Err(FwPairError::S(FwError::Io("read failed")))));
    assert_eq!(fw.len(), 0);
}

#[test]
fn refused_subscription_at_accept_keeps_the_pair_out() {
    let (mut fw, s) = engine(64);
    let (l, u) = (wire(), wire());
    l.borrow_mut().register_fails = true;
    let r = accept_pair(&mut fw, &s, pending(&l, 0), pending(&u, 0));
    assert!(matches!(r, Err(FwPairError::L(FwError::Register(_)))));
    assert_eq!(fw.len(), 0);
    assert_eq!(fw.next_conn_id(), 2);

    let (l, u) = (wire(), wire());
    u.borrow_mut().register_fails = true;
    let r = accept_pair(&mut fw, &s, pending(&l, 0), pending(&u, 0));
    assert!(matches!(r, Err(FwPairError::S(FwError::Register(_)))));
    assert_eq!(fw.len(), 0);
    assert_eq!(fw.next_conn_id(), 3);
}

#[test]
fn refused_resumption_ends_the_pair() {
    let (mut fw, s) = engine(64);
    let (l, u) = (wire(), wire());
    assert!(accept_pair(&mut fw, &s, pending(&l, 1), pending(&u, 0)).is_ok());
    u.borrow_mut().register_fails = true;
    let r = fw.handle_event(2);
    assert!(matches!(r, Err(FwPairError::L(FwError::Register(_)))));
    assert_eq!(fw.len(), 0);
    assert_eq!(l.borrow().registered, None);
}

#[test]
fn an_endpoint_that_is_active_at_once_waits_paused() {
    let (mut fw, s) = engine(64);
    let (l, u) = (wire(), wire());
    assert!(accept_pair(&mut fw, &s, active(&l), pending(&u, 2)).is_ok());
    let info = fw.pair(1).expect("pair 1");
    assert_eq!((info.l, info.s), (Slot::Active, Slot::Pending));
    assert!(!info.l_watched && info.s_watched);
    assert_watch_matches(&info, &l, &u);

    assert!(fw.handle_event(3).is_ok());
    assert_eq!(fw.pair(1).unwrap().s, Slot::Pending);
    l.borrow_mut().reads.push_back(Read::Data(b"queued".to_vec()));
    assert!(fw.handle_event(3).is_ok());
    let info = fw.pair(1).unwrap();
    assert_eq!((info.l, info.s), (Slot::Active, Slot::Active));
    assert_watch_matches(&info, &l, &u);
    assert_eq!(l.borrow().registered, Some(2));
    assert!(u.borrow().written.is_empty());

    assert!(fw.handle_event(2).is_ok());
    assert_eq!(u.borrow().written, b"queued".to_vec());
}

#[test]
fn two_endpoints_that_are_active_at_once_relay_at_once() {
    let (mut fw, s) = engine(64);
    let (l, u) = (wire(), wire());
    assert!(accept_pair(&mut fw, &s, active(&l), active(&u)).is_ok());
    let info = fw.pair(1).expect("pair 1");
    assert_eq!((info.l, info.s), (Slot::Active, Slot::Active));
    assert!(info.l_watched && info.s_watched);
    assert_watch_matches(&info, &l, &u);
    assert_eq!(l.borrow().registrations, 1);
    assert_eq!(l.borrow().deregistrations, 0);
    u.borrow_mut().reads.push_back(Read::Data(b"pong".to_vec()));
    assert!(fw.handle_event(3).is_ok());
    assert_eq!(l.borrow().written, b"pong".to_vec());
}

#[test]
fn turn_handles_a_batch_in_order_and_reports_what_failed() {
    let (mut fw, s) = engine(64);
    let (l, u) = (wire(), wire());
    s.borrow_mut().accepts.push_back(Ok(Some(pending(&l, 0))));
    s.borrow_mut().connects.push_back(Ok(pending(&u, 0)));
    l.borrow_mut().reads.push_back(Read::Data(b"ab".to_vec()));
    l.borrow_mut().reads.push_back(Read::Closed);
    let failed = fw.turn(&[2, 0, 99, 3, 2, 2]);
    assert_eq!(failed.len(), 4);
    assert!(matches!(failed[0], (2, FwPairError::Lost)));
    assert!(matches!(failed[1], (99, FwPairError::Lost)));
    assert!(matches!(failed[2], (2, FwPairError::Disconnected)));
    assert!(matches!(failed[3], (2, FwPairError::Lost)));
    assert_eq!(u.borrow().written, b"ab".to_vec());
    assert_eq!(fw.len(), 0);
    assert_eq!(fw.next_conn_id(), 2);
    assert!(fw.turn(&[]).is_empty());
}

#[test]
fn relay_step_forwards_one_chunk() {
    let (a, b) = (wire(), wire());
    let mut ca = MockChan { w: a.clone() };
    let mut cb = MockChan { w: b.clone() };
    let mut buf = vec![0u8; 8];
    a.borrow_mut().reads.push_back(Read::Data(b"0123456789".to_vec()));
    let r = handle_once(&mut buf, &mut ca, &mut cb);
    assert!(matches!(r, Ok(Some(8))));
    assert_eq!(b.borrow().written, b"01234567".to_vec());
    let r = handle_once(&mut buf, &mut ca, &mut cb);
    assert!(matches!(r, Ok(Some(2))));
    assert_eq!(b.borrow().written, b"0123456789".to_vec());
    let r = handle_once(&mut buf, &mut ca, &mut cb);
    assert!(matches!(r, Ok(None)));
    a.borrow_mut().reads.push_back(Read::Closed);
    let r = handle_once(&mut buf, &mut ca, &mut cb);
    assert!(matches!(r, Err(FwPairError::Disconnected)));
    a.borrow_mut().reads.push_back(Read::Fail);
    let r = handle_once(&mut buf, &mut ca, &mut cb);
    assert!(matches!(r, Err(FwPairError::L(FwError::Io("read failed")))));
    assert_eq!(buf.len(), 8);
}

#[test]
fn relay_drains_until_nothing_is_ready() {
    let (a, b) = (wire(), wire());
    let mut ca = MockChan { w: a.clone() };
    let mut cb = MockChan { w: b.clone() };
    let mut buf = vec![0u8; 3];
    a.borrow_mut().reads.push_back(Read::Data(b"abcd".to_vec()));
    a.borrow_mut().reads.push_back(Read::Data(b"efg".to_vec()));
    let r = handle_rw(&mut buf, &mut ca, &mut cb);
    assert!(matches!(r, Ok(Some(7))));
    assert_eq!(b.borrow().written, b"abcdefg".to_vec());
    let r = handle_rw(&mut buf, &mut ca, &mut cb);
    assert!(matches!(r, Ok(Some(0))));
    a.borrow_mut().reads.push_back(Read::Data(b"h".to_vec()));
    a.borrow_mut().reads.push_back(Read::Closed);
    let r = handle_rw(&mut buf, &mut ca, &mut cb);
    assert!(matches!(r, Err(FwPairError::Disconnected)));
    assert_eq!(b.borrow().written, b"abcdefgh".to_vec());
}

#[test]
fn send_all_writes_the_front_of_the_buffer() {
    let b = wire();
    let mut cb = MockChan { w: b.clone() };
    b.borrow_mut().write_cap = Some(1);
    let r: Result<(), FwPairError<&'static str, &'static str>> = send_all(b"abcdef", 4, &mut cb);
    assert!(r.is_ok());
    assert_eq!(b.borrow().written, b"abcd".to_vec());
    let r: Result<(), FwPairError<&'static str, &'static str>> = send_all(b"abcdef", 0, &mut cb);
    assert!(r.is_ok());
    assert_eq!(b.borrow().written, b"abcd".to_vec());
}

#[test]
fn handshake_step_moves_a_slot() {
    let poll = Poll::new().expect("a notifier");
    let w = wire();
    let mut st: State<&'static str, MockChan, MockMid> =
        State::Pending(MockMid { w: w.clone(), waits: 1, fails: false });
    assert_eq!(st.kind(), Slot::Pending);
    assert!(!st.is_active());
    assert!(matches!(try_proceed(&poll, &mut st), Ok(false)));
    assert_eq!(st.kind(), Slot::Pending);
    assert!(matches!(try_proceed(&poll, &mut st), Ok(true)));
    assert_eq!(st.kind(), Slot::Active);
    assert!(st.is_active());
    w.borrow_mut().reads.push_back(Read::Data(vec![9]));
    let mut buf = [0u8; 2];
    assert!(matches!(st.chan().recv(&mut buf), Ok(Some(1))));
    assert_eq!(buf[0], 9);

    let mut st: State<&'static str, MockChan, MockMid> =
        State::Pending(MockMid { w: wire(), waits: 0, fails: true });
    assert!(matches!(try_proceed(&poll, &mut st), Err(FwError::Io("handshake failed"))));
    assert_eq!(st.kind(), Slot::Lost);
    assert!(!st.is_active());
}

#[test]
fn slot_subscriptions_go_to_what_the_slot_holds() {
    let poll = Poll::new().expect("a notifier");
    let w = wire();
    let st: State<&'static str, MockChan, MockMid> = State::from(pending(&w, 0));
    assert_eq!(st.kind(), Slot::Pending);
    assert!(st.register(&poll, 6).is_ok());
    assert_eq!(w.borrow().registered, Some(6));
    assert!(st.deregister(&poll).is_ok());
    assert_eq!(w.borrow().registered, None);
    assert!(st.deregister(&poll).is_err());

    let st: State<&'static str, MockChan, MockMid> = State::from(active(&w));
    assert_eq!(st.kind(), Slot::Active);
    assert!(st.register(&poll, 7).is_ok());
    assert_eq!(w.borrow().registered, Some(7));

    let lost: State<&'static str, MockChan, MockMid> = State::Lost;
    assert!(lost.deregister(&poll).is_ok());
    assert!(lost.deregister(&poll).is_ok());
    assert_eq!(w.borrow().registered, Some(7));
}

#[test]
fn settle_turns_an_outcome_into_a_slot() {
    let w = wire();
    let (st, r) = State::settle(Ok(pending(&w, 0)));
    assert_eq!(st.kind(), Slot::Pending);
    assert!(matches!(r, Ok(false)));
    let (st, r) = State::settle(Ok(active(&w)));
    assert_eq!(st.kind(), Slot::Active);
    assert!(matches!(r, Ok(true)));
    let (st, r): (State<&'static str, MockChan, MockMid>, _) =
        State::settle(Err(FwError::Custom(3)));
    assert_eq!(st.kind(), Slot::Lost);
    assert!(matches!(r, Err(FwError::Custom(3))));
}

#[test]
fn pair_by_itself_takes_its_steps() {
    let poll = Poll::new().expect("a notifier");
    let (l, u) = (wire(), wire());
    let ca: State<&'static str, MockChan, MockMid> = State::from(pending(&l, 1));
    let cb: State<&'static str, MockChan, MockMid> = State::from(pending(&u, 0));
    let mut pair = Pair::open(&poll, 7, ca, cb, 16).ok().expect("a pair");
    let info = pair.info();
    assert_eq!(
        info,
        PairInfo {
            conn_id: 7,
            l: Slot::Pending,
            s: Slot::Pending,
            l_watched: true,
            s_watched: true,
            tok_l: 14,
            tok_s: 15,
            bytes_l_to_s: 0,
            bytes_s_to_l: 0,
            buffer: 16,
        }
    );
    assert_eq!(pair.actives(), 0);
    assert_watch_matches(&info, &l, &u);

    assert!(pair.probe(&poll).is_ok());
    let info = pair.info();
    assert_eq!((info.l, info.s), (Slot::Pending, Slot::Active));
    assert_eq!((info.l_watched, info.s_watched), (true, false));
    assert_eq!(pair.actives(), 1);
    assert_watch_matches(&info, &l, &u);

    assert!(pair.on_event(&poll, Side::S).is_ok());
    assert_eq!(pair.info(), info);

    assert!(pair.proceed(&poll, Side::L).is_ok());
    let info = pair.info();
    assert_eq!((info.l, info.s), (Slot::Active, Slot::Active));
    assert_eq!((info.l_watched, info.s_watched), (true, true));
    assert_eq!(pair.actives(), 2);
    assert_watch_matches(&info, &l, &u);

    u.borrow_mut().reads.push_back(Read::Data(b"abc".to_vec()));
    assert!(pair.relay(Side::S).is_ok());
    assert_eq!(l.borrow().written, b"abc".to_vec());
    assert_eq!(pair.info().bytes_s_to_l, 3);
    assert_eq!(pair.info().bytes_l_to_s, 0);

    let r = pair.release(&poll);
    assert!(r.0.is_ok() && r.1.is_ok());
    let info = pair.info();
    assert_eq!((info.l_watched, info.s_watched), (false, false));
    assert_watch_matches(&info, &l, &u);
}

#[test]
fn slots_are_never_seen_in_the_middle_of_a_move() {
    let (mut fw, s) = engine(8);
    let (l, u) = (wire(), wire());
    assert!(accept_pair(&mut fw, &s, pending(&l, 2), pending(&u, 1)).is_ok());
    l.borrow_mut().reads.push_back(Read::Data(b"abc".to_vec()));
    for tok in [2usize, 3, 3, 2, 2, 3, 0, 2] {
        let _ = fw.handle_event(tok);
        if let Some(info) = fw.pair(1) {
            for slot in [info.l, info.s] {
                assert!(slot == Slot::Pending || slot == Slot::Active);
            }
            assert_watch_matches(&info, &l, &u);
        }
    }
    assert_eq!(fw.pair(1).map(|p| (p.l, p.s)), Some((Slot::Active, Slot::Active)));
    assert_eq!(u.borrow().written, b"abc".to_vec());
}

#[test]
fn calls_are_handed_through_to_the_endpoints() {
    let (a, b) = (wire(), wire());
    let mut ca = MockChan { w: a.clone() };
    let mut cb = MockChan { w: b.clone() };
    a.borrow_mut().reads.push_back(Read::Data(b"xyz".to_vec()));
    let mut buf = [0u8; 2];
    assert!(matches!(recv_on(&mut ca, &mut buf).0, Ok(Some(2))));
    assert_eq!(&buf, b"xy");
    assert!(matches!(recv_on(&mut ca, &mut buf).0, Ok(Some(1))));
    assert!(matches!(recv_on(&mut ca, &mut buf).0, Ok(None)));
    b.borrow_mut().write_cap = Some(1);
    assert!(matches!(send_on(&mut cb, b"pq").0, Ok(1)));
    assert_eq!(b.borrow().written, b"p".to_vec());

    let s = Rc::new(RefCell::new(Script::default()));
    let mut listener = MockListener { s: s.clone() };
    let mut connector = MockConnector { s: s.clone() };
    assert!(matches!(accept_on(&mut listener).0, Ok(None)));
    s.borrow_mut().accepts.push_back(Ok(Some(active(&a))));
    assert!(matches!(accept_on(&mut listener).0, Ok(Some(NextState::Active(_)))));
    assert!(matches!(connect_on(&mut connector).0, Err(FwError::Io("nothing to dial"))));
    s.borrow_mut().connects.push_back(Ok(pending(&b, 0)));
    assert!(matches!(connect_on(&mut connector).0, Ok(NextState::Pending(_))));
    assert_eq!((s.borrow().accept_calls, s.borrow().connect_calls), (2, 2));
}

#[test]
fn a_read_count_beyond_the_buffer_ends_the_pair() {
    struct Liar;
    impl Chan for Liar {
        type Err = &'static str;
        fn send(&mut self, buff: &[u8]) -> Result<usize, FwError<&'static str>> {
            Ok(buff.len() + 1)
        }
        fn recv(&mut self, buff: &mut [u8]) -> Result<Option<usize>, FwError<&'static str>> {
            Ok(Some(buff.len() + 1))
        }
    }
    let b = wire();
    let mut cb = MockChan { w: b.clone() };
    let mut buf = [0u8; 4];
    let r = handle_once(&mut buf, &mut Liar, &mut cb);
    assert!(matches!(r, Err(FwPairError::L(FwError::Custom(5)))));
    assert!(b.borrow().written.is_empty());

    let a = wire();
    let mut ca = MockChan { w: a.clone() };
    a.borrow_mut().reads.push_back(Read::Data(b"ab".to_vec()));
    let r = handle_once(&mut buf, &mut ca, &mut Liar);
    assert!(matches!(r, Err(FwPairError::S(FwError::Disconnected))));
}
