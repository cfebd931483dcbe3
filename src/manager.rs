//! The configured tunnels, by name, and the operations on them.
use vstd::prelude::*;

use crate::context::Context;
use crate::error::{Error, ErrorView};
use crate::session::{message_of, texts, Plan, Progress, Reply, Request, RequestView};
use crate::text::{lemma_lex_irreflexive, lemma_lex_total, lemma_lex_transitive, lex_less, lex_lt};
use crate::tunnel::{and_then, unit_plan, Tunnel, TunnelMeta};

verus! {

/// The operations that can be run over all tunnels.
#[derive(Debug, Clone, Copy, PartialEq, Eq, Structural)]
pub enum Operation {
    Start,
    Stop,
    Restart,
}

/// The configured tunnels, kept in order of their names, each name once.
pub struct TunnelManager {
    tunnels: Vec<Tunnel>,
}

impl View for TunnelManager {
    type V = Seq<Tunnel>;

    closed spec fn view(&self) -> Seq<Tunnel> {
        self.tunnels@
    }
}

/// Whether each name comes strictly before every later one.
pub open spec fn sorted_names(names: Seq<Seq<char>>) -> bool {
    forall|i: int, j: int| 0 <= i < j < names.len() ==> lex_lt(names[i], names[j])
}

/// The name of each tunnel of a sequence.
pub open spec fn names_of(ts: Seq<Tunnel>) -> Seq<Seq<char>> {
    ts.map_values(|t: Tunnel| t.name_spec())
}

/// A failed status report still lets the operation succeed: only where the
/// replies end does it matter.
pub open spec fn ignore_status(p: Plan<bool>) -> Plan<()> {
    match p {
        Plan::Finished { result: _, next } => Plan::Finished { result: Ok(()), next },
        Plan::Ask { request } => Plan::Ask { request },
    }
}

pub open spec fn not_found(name: Seq<char>) -> ErrorView {
    ErrorView::TunnelNotFound { tunnel: name }
}

impl TunnelManager {
    pub open spec fn names(&self) -> Seq<Seq<char>> {
        names_of(self@)
    }

    /// Names are in strictly increasing order, so each occurs once.
    pub open spec fn wf(&self) -> bool {
        sorted_names(self.names())
    }

    pub open spec fn has(&self, name: Seq<char>) -> bool {
        self.names().contains(name)
    }

    /// Where the tunnel called `name` stands.
    pub open spec fn position(&self, name: Seq<char>) -> int {
        choose|i: int| 0 <= i < self@.len() && self@[i].name_spec() == name
    }

    /// The tunnel called `name`.
    pub open spec fn tunnel_named(&self, name: Seq<char>) -> Tunnel {
        self@[self.position(name)]
    }

    /// The tunnels by name.
    pub open spec fn to_map(&self) -> Map<Seq<char>, Tunnel> {
        Map::new(|k: Seq<char>| self.has(k), |k: Seq<char>| self.tunnel_named(k))
    }

    pub proof fn lemma_position(&self, i: int)
        requires
            self.wf(),
            0 <= i < self@.len(),
        ensures
            self.has(self@[i].name_spec()),
            self.position(self@[i].name_spec()) == i,
            self.tunnel_named(self@[i].name_spec()) == self@[i],
    {
        let k = self@[i].name_spec();
        assert(self.names()[i] == k);
        let p = self.position(k);
        lemma_lex_irreflexive(k);
        if p < i {
            assert(lex_lt(self.names()[p], self.names()[i]));
        } else if p > i {
            assert(lex_lt(self.names()[i], self.names()[p]));
        }
    }

    pub fn new() -> (r: Self)
        ensures
            r@ == Seq::<Tunnel>::empty(),
            r.wf(),
    {
        TunnelManager { tunnels: Vec::new() }
    }

    /// Adds `tunnel` under its name, in place of a tunnel of the same name.
    pub fn insert(&mut self, tunnel: Tunnel)
        requires
            old(self).wf(),
        ensures
            final(self).wf(),
            final(self).to_map() == old(self).to_map().insert(tunnel.name_spec(), tunnel),
    {
        let ghost before = *self;
        let ghost key = tunnel.name_spec();
        let n = self.tunnels.len();
        let mut i: usize = 0;
        loop
            invariant
                i <= n,
                n == self@.len(),
                *self == before,
                before.wf(),
                key == tunnel.name_spec(),
                forall|j: int| 0 <= j < i ==> lex_lt(#[trigger] before.names()[j], key),
            ensures
                i <= n,
                *self == before,
                forall|j: int| 0 <= j < i ==> lex_lt(#[trigger] before.names()[j], key),
                i < n ==> !lex_lt(before.names()[i as int], key),
            decreases n - i,
        {
            if i >= n {
                break;
            }
            let less = lex_less(self.tunnels[i].name(), tunnel.name());
            assert(before.names()[i as int] == self@[i as int].name_spec());
            if !less {
                break;
            }
            i = i + 1;
        }
        let same = i < n && !lex_less(tunnel.name(), self.tunnels[i].name());
        proof {
            if i < n {
                assert(before.names()[i as int] == self@[i as int].name_spec());
            }
        }
        if same {
            proof {
                if before.names()[i as int] != key {
                    lemma_lex_total(before.names()[i as int], key);
                }
            }
            self.tunnels.set(i, tunnel);
            proof {
                assert forall|j: int| 0 <= j < self.names().len() implies self.names()[j] == before.names()[j] by {
                    if j != i {
                        assert(self@[j] == before@[j]);
                    }
                }
                assert(self.names() =~= before.names());
                assert forall|k: Seq<char>| #[trigger] self.has(k) == before.to_map().insert(key, tunnel).contains_key(k) by {
                    if self.has(k) {
                        let j = self.names().index_of(k);
                    }
                }
                assert forall|k: Seq<char>| self.has(k) implies #[trigger] self.tunnel_named(k) == before.to_map().insert(key, tunnel)[k] by {
                    let j = choose|j: int| 0 <= j < self@.len() && self.names()[j] == k;
                    self.lemma_position(j);
                    before.lemma_position(j);
                }
                assert(self.to_map() =~= before.to_map().insert(key, tunnel));
            }
        } else {
            proof {
                if i < n {
                    if before.names()[i as int] != key {
                        lemma_lex_total(before.names()[i as int], key);
                    }
                }
            }
            self.tunnels.insert(i, tunnel);
            proof {
                let old_names = before.names();
                assert(self.names() =~= old_names.take(i as int).push(key) + old_names.skip(i as int));
                assert forall|a: int, b: int| 0 <= a < b < self.names().len() implies lex_lt(
                    self.names()[a],
                    self.names()[b],
                ) by {
                    if a < i && b > i {
                        assert(self.names()[b] == old_names[b - 1]);
                    } else if a == i && b > i {
                        assert(self.names()[b] == old_names[b - 1]);
                        if b - 1 > i {
                            lemma_lex_transitive(key, old_names[i as int], old_names[b - 1]);
                        }
                    } else if a > i {
                        assert(self.names()[a] == old_names[a - 1]);
                        assert(self.names()[b] == old_names[b - 1]);
                    }
                }
                assert forall|k: Seq<char>| #[trigger] self.has(k) == before.to_map().insert(key, tunnel).contains_key(k) by {
                    if self.has(k) {
                        let j = self.names().index_of(k);
                        if j > i {
                            assert(old_names[j - 1] == k);
                        }
                    }
                    if before.has(k) {
                        let j = old_names.index_of(k);
                        if j >= i {
                            assert(self.names()[j + 1] == k);
                        } else {
                            assert(self.names()[j] == k);
                        }
                    }
                    if k == key {
                        assert(self.names()[i as int] == k);
                    }
                }
                assert forall|k: Seq<char>| self.has(k) implies #[trigger] self.tunnel_named(k) == before.to_map().insert(key, tunnel)[k] by {
                    let j = choose|j: int| 0 <= j < self@.len() && self.names()[j] == k;
                    self.lemma_position(j);
                    self.lemma_position(i as int);
                    assert(self@[i as int] == tunnel);
                    if j < i {
                        assert(self@[j] == before@[j]);
                        assert(old_names[j] == k);
                        before.lemma_position(j);
                    } else if j > i {
                        assert(self@[j] == before@[j - 1]);
                        assert(old_names[j - 1] == k);
                        before.lemma_position(j - 1);
                    }
                }
                assert(self.to_map() =~= before.to_map().insert(key, tunnel));
            }
        }
    }

    /// The names of the tunnels, in order.
    pub fn list(&self) -> (r: Vec<String>)
        ensures
            texts(r@) == self.names(),
    {
        let mut r: Vec<String> = Vec::new();
        let mut i: usize = 0;
        while i < self.tunnels.len()
            invariant
                i <= self@.len(),
                texts(r@) == self.names().take(i as int),
            decreases self@.len() - i,
        {
            r.push(String::from_str(self.tunnels[i].name()));
            assert(self.names().take(i + 1) =~= self.names().take(i as int).push(self.names()[i as int]));
            assert(texts(r@) =~= self.names().take(i + 1));
            i = i + 1;
        }
        assert(self.names().take(i as int) =~= self.names());
        r
    }

    /// The metadata of the tunnels, in order of their names.
    pub fn metadata_list(&self) -> (r: Vec<TunnelMeta>)
        ensures
            r@ == self@.map_values(|t: Tunnel| t.meta_spec()),
    {
        let mut r: Vec<TunnelMeta> = Vec::new();
        let mut i: usize = 0;
        while i < self.tunnels.len()
            invariant
                i <= self@.len(),
                r@ == self@.take(i as int).map_values(|t: Tunnel| t.meta_spec()),
            decreases self@.len() - i,
        {
            r.push(self.tunnels[i].meta().copied());
            assert(self@.take(i + 1).map_values(|t: Tunnel| t.meta_spec()) =~= self@.take(
                i as int,
            ).map_values(|t: Tunnel| t.meta_spec()).push(self@[i as int].meta_spec()));
            i = i + 1;
        }
        assert(self@.take(i as int) =~= self@);
        r
    }

    /// The tunnel called `name`, or the failure that names it.
    pub fn get(&self, name: &str) -> (r: Result<&Tunnel, Error>)
        requires
            self.wf(),
        ensures
            r is Ok <==> self.has(name@),
            r matches Ok(t) ==> *t == self.tunnel_named(name@),
            r matches Err(e) ==> e@ == not_found(name@),
    {
        let mut i: usize = 0;
        while i < self.tunnels.len()
            invariant
                i <= self@.len(),
                self.wf(),
                forall|j: int| 0 <= j < i ==> #[trigger] self.names()[j] != name@,
            decreases self@.len() - i,
        {
            let here = self.tunnels[i].name();
            assert(self.names()[i as int] == here@);
            if !lex_less(here, name) && !lex_less(name, here) {
                proof {
                    if here@ != name@ {
                        lemma_lex_total(here@, name@);
                    }
                    assert(self.names()[i as int] == name@);
                    self.lemma_position(i as int);
                }
                return Ok(&self.tunnels[i]);
            }
            proof {
                lemma_lex_irreflexive(name@);
            }
            i = i + 1;
        }
        Err(Error::TunnelNotFound { tunnel: String::from_str(name) })
    }

    /// Create the control-path directory, find the tunnel, start it, then ask
    /// for its status, whose outcome does not matter.
    pub open spec fn start_plan(&self, ctx: &Context, name: Seq<char>, rs: Seq<Reply>, at: int) -> Plan<()> {
        let dir = ctx.expand_path(ctx.directory());
        if at >= rs.len() {
            Plan::Ask { request: RequestView::CreateDirectory { path: dir } }
        } else if rs[at] != Reply::Created {
            Plan::Finished {
                result: Err(ErrorView::CreateControlPathDirectory { dir_path: dir, message: message_of(rs[at]) }),
                next: at + 1,
            }
        } else if !self.has(name) {
            Plan::Finished { result: Err(not_found(name)), next: at + 1 }
        } else {
            let t = self.tunnel_named(name);
            and_then(t.start_plan(ctx, rs, at + 1), |n: int| ignore_status(t.running_plan(ctx, rs, n)))
        }
    }

    /// Find the tunnel; stop it only if it runs; then ask for its status,
    /// whose outcome does not matter.
    pub open spec fn stop_plan(&self, ctx: &Context, name: Seq<char>, rs: Seq<Reply>, at: int) -> Plan<()> {
        if !self.has(name) {
            Plan::Finished { result: Err(not_found(name)), next: at }
        } else {
            let t = self.tunnel_named(name);
            match t.running_plan(ctx, rs, at) {
                Plan::Finished { result: Ok(true), next } => and_then(
                    t.stop_plan(ctx, rs, next),
                    |n: int| ignore_status(t.running_plan(ctx, rs, n)),
                ),
                Plan::Finished { result: Ok(false), next } => ignore_status(t.running_plan(ctx, rs, next)),
                p => unit_plan(p),
            }
        }
    }

    pub open spec fn restart_plan(&self, ctx: &Context, name: Seq<char>, rs: Seq<Reply>, at: int) -> Plan<()> {
        if !self.has(name) {
            Plan::Finished { result: Err(not_found(name)), next: at }
        } else {
            self.tunnel_named(name).restart_plan(ctx, rs, at)
        }
    }

    pub open spec fn running_plan(&self, ctx: &Context, name: Seq<char>, rs: Seq<Reply>, at: int) -> Plan<bool> {
        if !self.has(name) {
            Plan::Finished { result: Err(not_found(name)), next: at }
        } else {
            self.tunnel_named(name).running_plan(ctx, rs, at)
        }
    }

    pub open spec fn operation_plan(
        &self,
        op: Operation,
        ctx: &Context,
        name: Seq<char>,
        rs: Seq<Reply>,
        at: int,
    ) -> Plan<()> {
        match op {
            Operation::Start => self.start_plan(ctx, name, rs, at),
            Operation::Stop => self.stop_plan(ctx, name, rs, at),
            Operation::Restart => self.restart_plan(ctx, name, rs, at),
        }
    }

    /// `op` on the tunnels from the `i`-th on, in order of their names,
    /// until one fails.
    pub open spec fn all_plan(&self, op: Operation, ctx: &Context, rs: Seq<Reply>, at: int, i: int) -> Plan<()>
        decreases self.names().len() - i,
    {
        if i < 0 || i >= self.names().len() {
            Plan::Finished { result: Ok(()), next: at }
        } else {
            match self.operation_plan(op, ctx, self.names()[i], rs, at) {
                Plan::Finished { result: Ok(_), next } => self.all_plan(op, ctx, rs, next, i + 1),
                p => p,
            }
        }
    }

    pub fn start(&self, context: &Context, tunnel_name: &str, replies: &[Reply], at: usize) -> (r: Progress<()>)
        requires
            self.wf(),
        ensures
            r@ == self.start_plan(context, tunnel_name@, replies@, at as int),
    {
        let dir_path = context.control_path_directory();
        if at >= replies.len() {
            return Progress::Ask { request: Request::CreateDirectory { path: dir_path } };
        }
        match &replies[at] {
            Reply::Created => {},
            r => {
                let message = match r {
                    Reply::Failed { message } => message.clone(),
                    Reply::WaitFailed { message } => message.clone(),
                    _ => String::new(),
                };
                return Progress::Finished {
                    result: Err(Error::CreateControlPathDirectory { dir_path, message }),
                    next: at + 1,
                };
            },
        }
        let tunnel = match self.get(tunnel_name) {
            Ok(t) => t,
            Err(e) => return Progress::Finished { result: Err(e), next: at + 1 },
        };
        match tunnel.start(context, replies, at + 1) {
            Progress::Finished { result: Ok(_), next } => self.status(tunnel, context, replies, next),
            other => other,
        }
    }

    /// Asks for the status of `tunnel` once it was acted on; what it says is
    /// not held against the operation.
    fn status(&self, tunnel: &Tunnel, context: &Context, replies: &[Reply], at: usize) -> (r: Progress<()>)
        ensures
            r@ == ignore_status(tunnel.running_plan(context, replies@, at as int)),
    {
        match tunnel.is_running(context, replies, at) {
            Progress::Finished { result: _, next } => Progress::Finished { result: Ok(()), next },
            Progress::Ask { request } => Progress::Ask { request },
        }
    }

    pub fn stop(&self, context: &Context, tunnel_name: &str, replies: &[Reply], at: usize) -> (r: Progress<()>)
        requires
            self.wf(),
        ensures
            r@ == self.stop_plan(context, tunnel_name@, replies@, at as int),
    {
        let tunnel = match self.get(tunnel_name) {
            Ok(t) => t,
            Err(e) => return Progress::Finished { result: Err(e), next: at },
        };
        match tunnel.is_running(context, replies, at) {
            Progress::Ask { request } => Progress::Ask { request },
            Progress::Finished { result: Err(e), next } => Progress::Finished { result: Err(e), next },
            Progress::Finished { result: Ok(true), next } => match tunnel.stop(context, replies, next) {
                Progress::Finished { result: Ok(_), next } => self.status(tunnel, context, replies, next),
                other => other,
            },
            Progress::Finished { result: Ok(false), next } => self.status(tunnel, context, replies, next),
        }
    }

    pub fn restart(&self, context: &Context, tunnel_name: &str, replies: &[Reply], at: usize) -> (r: Progress<()>)
        requires
            self.wf(),
        ensures
            r@ == self.restart_plan(context, tunnel_name@, replies@, at as int),
    {
        match self.get(tunnel_name) {
            Ok(t) => t.restart(context, replies, at),
            Err(e) => Progress::Finished { result: Err(e), next: at },
        }
    }

    pub fn is_running(&self, context: &Context, tunnel_name: &str, replies: &[Reply], at: usize) -> (r: Progress<bool>)
        requires
            self.wf(),
        ensures
            r@ == self.running_plan(context, tunnel_name@, replies@, at as int),
    {
        match self.get(tunnel_name) {
            Ok(t) => t.is_running(context, replies, at),
            Err(e) => Progress::Finished { result: Err(e), next: at },
        }
    }

    fn run_operation(&self, op: Operation, context: &Context, tunnel_name: &str, replies: &[Reply], at: usize) -> (r: Progress<()>)
        requires
            self.wf(),
        ensures
            r@ == self.operation_plan(op, context, tunnel_name@, replies@, at as int),
    {
        match op {
            Operation::Start => self.start(context, tunnel_name, replies, at),
            Operation::Stop => self.stop(context, tunnel_name, replies, at),
            Operation::Restart => self.restart(context, tunnel_name, replies, at),
        }
    }

    /// Runs `op` on every tunnel, in the order of `list`, and stops at the
    /// first failure.
    pub fn run_all(&self, op: Operation, context: &Context, replies: &[Reply], at: usize) -> (r: Progress<()>)
        requires
            self.wf(),
        ensures
            r@ == self.all_plan(op, context, replies@, at as int, 0),
    {
        let names = self.list();
        let mut i: usize = 0;
        let mut pos: usize = at;
        while i < names.len()
            invariant
                i <= names@.len(),
                texts(names@) == self.names(),
                self.wf(),
                self.all_plan(op, context, replies@, at as int, 0) == self.all_plan(op, context, replies@, pos as int, i as int),
            decreases names@.len() - i,
        {
            assert(names@[i as int]@ == self.names()[i as int]);
            match self.run_operation(op, context, names[i].as_str(), replies, pos) {
                Progress::Finished { result: Ok(_), next } => {
                    pos = next;
                },
                other => return other,
            }
            i = i + 1;
        }
        Progress::Finished { result: Ok(()), next: pos }
    }

    pub fn start_all(&self, context: &Context, replies: &[Reply], at: usize) -> (r: Progress<()>)
        requires
            self.wf(),
        ensures
            r@ == self.all_plan(Operation::Start, context, replies@, at as int, 0),
    {
        self.run_all(Operation::Start, context, replies, at)
    }

    pub fn stop_all(&self, context: &Context, replies: &[Reply], at: usize) -> (r: Progress<()>)
        requires
            self.wf(),
        ensures
            r@ == self.all_plan(Operation::Stop, context, replies@, at as int, 0),
    {
        self.run_all(Operation::Stop, context, replies, at)
    }

    pub fn restart_all(&self, context: &Context, replies: &[Reply], at: usize) -> (r: Progress<()>)
        requires
            self.wf(),
        ensures
            r@ == self.all_plan(Operation::Restart, context, replies@, at as int, 0),
    {
        self.run_all(Operation::Restart, context, replies, at)
    }
}

} // verus!
