//! Programs that ask the world around them.
//!
//! A machine here is a value that puts requests to components whose answers nothing promises:
//! `VBoxManage`, windows, files, the clock. It keeps, for specifications only, a journal of what
//! it asked and what was answered. A contract then says that the machine ran a *program*: a
//! function from the state before and from the answers, as an oracle gives them in turn, to the
//! requests made, the state after and the result. Whatever the components answer, the program
//! says what the machine does about it.
//!
//! What a component may answer is a *relation* that its implementation chooses. A contract says
//! of every exchange that it adds to the journal that the machine's components allow it. A
//! machine learns that of an exchange only by putting the request to the component and getting
//! the answer, so that it cannot note what it did not ask.
use vstd::prelude::*;

verus! {

/// A request and the answer to it.
pub struct Exchange<Q, R> {
    pub request: Q,
    pub reply: R,
}

/// The answers to the requests of a machine, in turn.
pub type Oracle<R> = spec_fn(int) -> R;

/// A component that a machine keeps: a trait object that is moved in as it is, and not coerced.
pub struct Kept<T>(pub T);

/// A machine that keeps a journal.
pub trait Journaled: Sized {
    type Request;

    type Reply;

    type State;

    spec fn journal(self) -> Seq<Exchange<Self::Request, Self::Reply>>;

    spec fn state(self) -> Self::State;

    /// Which answers the machine's components may give to which requests.
    spec fn answers(self) -> Relation<Self::Request, Self::Reply>;
}

/// Which answers may be given to which requests.
pub type Relation<Q, R> = spec_fn(Q, R) -> bool;

/// What a program works on: the answers to come, the requests made, and the machine's state.
#[verifier::ext_equal]
pub struct World<Q, R, S> {
    pub oracle: Oracle<R>,
    pub requests: Seq<Q>,
    pub state: S,
}

/// The requests of a journal.
pub open spec fn requests<Q, R>(journal: Seq<Exchange<Q, R>>) -> Seq<Q> {
    journal.map_values(|exchange: Exchange<Q, R>| exchange.request)
}

/// Whether an oracle gives the answers of a journal.
pub open spec fn agrees<Q, R>(oracle: Oracle<R>, journal: Seq<Exchange<Q, R>>) -> bool {
    forall|k: int| 0 <= k < journal.len() ==> #[trigger] oracle(k) == journal[k].reply
}

/// The oracle that gives the answers of a journal.
pub open spec fn told<Q, R>(journal: Seq<Exchange<Q, R>>) -> Oracle<R> {
    |k: int| journal[k].reply
}

/// The world that a machine is in, for an oracle.
pub open spec fn world<M: Journaled>(machine: M, oracle: Oracle<M::Reply>) -> World<
    M::Request,
    M::Reply,
    M::State,
> {
    World { oracle, requests: requests(machine.journal()), state: machine.state() }
}

/// Whether one relation allows all that another does.
pub open spec fn allows<Q, R>(wider: Relation<Q, R>, relation: Relation<Q, R>) -> bool {
    forall|request: Q, reply: R| relation(request, reply) ==> #[trigger] wider(request, reply)
}

/// Whether a relation allows every exchange of a journal from a place on.
pub open spec fn allowed_since<Q, R>(
    journal: Seq<Exchange<Q, R>>,
    from: int,
    relation: Relation<Q, R>,
) -> bool {
    forall|k: int|
        0 <= k < journal.len() && from <= k ==> relation(
            (#[trigger] journal[k]).request,
            journal[k].reply,
        )
}

/// Whether a relation allows every exchange by which one journal has become another: whatever
/// allows as much, and allowed the exchanges from some place on, still does.
pub open spec fn adds<Q, R>(
    before: Seq<Exchange<Q, R>>,
    after: Seq<Exchange<Q, R>>,
    relation: Relation<Q, R>,
) -> bool {
    forall|from: int, wider: Relation<Q, R>|
        allows(wider, relation) && #[trigger] allowed_since(before, from, wider)
            ==> allowed_since(after, from, wider)
}

/// Whether a machine has gone from one state to another by running a program: under every
/// oracle that gives the answers that the machine got, the program makes the machine's requests
/// and ends in the machine's state with the machine's result. The machine's components have
/// answered, and are what they were.
pub open spec fn runs<M: Journaled, T>(
    before: M,
    after: M,
    program: spec_fn(World<M::Request, M::Reply, M::State>) -> (
        World<M::Request, M::Reply, M::State>,
        T,
    ),
    result: T,
) -> bool {
    runs_with(before, after, before.answers(), program, result)
}

/// Whether a machine has run a program, and others than its own components may have answered.
pub open spec fn runs_with<M: Journaled, T>(
    before: M,
    after: M,
    relation: Relation<M::Request, M::Reply>,
    program: spec_fn(World<M::Request, M::Reply, M::State>) -> (
        World<M::Request, M::Reply, M::State>,
        T,
    ),
    result: T,
) -> bool {
    &&& forall|oracle: Oracle<M::Reply>| #[trigger]
        agrees(oracle, after.journal()) ==> agrees(oracle, before.journal()) && program(
            world(before, oracle),
        ) == (world(after, oracle), result)
    &&& adds(before.journal(), after.journal(), relation)
    &&& after.answers() == before.answers()
}

/// A program that puts one request.
pub open spec fn ask<Q, R, S>(w: World<Q, R, S>, request: Q) -> (World<Q, R, S>, R) {
    (World { requests: w.requests.push(request), ..w }, (w.oracle)(w.requests.len() as int))
}

/// A program that changes the state of the machine.
pub open spec fn in_state<Q, R, S>(w: World<Q, R, S>, state: S) -> World<Q, R, S> {
    World { state, ..w }
}

/// A machine whose journal has one more exchange, and whose state is what it was, has put one
/// request.
pub proof fn lemma_asked<M: Journaled>(
    before: M,
    after: M,
    request: M::Request,
    reply: M::Reply,
    relation: Relation<M::Request, M::Reply>,
)
    requires
        after.journal() == before.journal().push(Exchange { request, reply }),
        after.state() == before.state(),
        after.answers() == before.answers(),
        relation(request, reply),
    ensures
        runs_with(
            before,
            after,
            relation,
            |w: World<M::Request, M::Reply, M::State>| ask(w, request),
            reply,
        ),
{
    assert forall|from: int, wider: Relation<M::Request, M::Reply>|
        allows(wider, relation) && #[trigger] allowed_since(
            before.journal(),
            from,
            wider,
        ) implies allowed_since(after.journal(), from, wider) by {
        assert(wider(request, reply));
        assert forall|k: int|
            0 <= k < after.journal().len() && from <= k implies wider(
            (#[trigger] after.journal()[k]).request,
            after.journal()[k].reply,
        ) by {
            if k < before.journal().len() {
                assert(after.journal()[k] == before.journal()[k]);
            }
        }
    }
    assert forall|oracle: Oracle<M::Reply>| #[trigger]
        agrees(oracle, after.journal()) implies agrees(oracle, before.journal()) && ask(
        world(before, oracle),
        request,
    ) == (world(after, oracle), reply) by {
        assert forall|k: int| 0 <= k < before.journal().len() implies #[trigger] oracle(k)
            == before.journal()[k].reply by {
            assert(after.journal()[k] == before.journal()[k]);
        }
        assert(after.journal()[before.journal().len() as int].reply == reply);
        assert(requests(after.journal()) =~= requests(before.journal()).push(request));
    }
}

/// What a machine notes is true: whenever it has run a program, every exchange that its journal
/// has gained is one that those allow whom it asked. The journal of a machine that began with
/// none thus holds no other.
pub proof fn law_the_journal_is_true<M: Journaled, T>(
    before: M,
    after: M,
    relation: Relation<M::Request, M::Reply>,
    program: spec_fn(World<M::Request, M::Reply, M::State>) -> (
        World<M::Request, M::Reply, M::State>,
        T,
    ),
    result: T,
)
    requires
        runs_with(before, after, relation, program, result),
    ensures
        allowed_since(after.journal(), before.journal().len() as int, relation),
        allowed_since(before.journal(), 0, relation) ==> allowed_since(
            after.journal(),
            0,
            relation,
        ),
{
    assert(allowed_since(before.journal(), before.journal().len() as int, relation));
}

/// Whether a program has gone from one world to another by putting only requests that are
/// allowed, each after those that were put before it.
pub open spec fn within<Q, R, S>(
    before: World<Q, R, S>,
    after: World<Q, R, S>,
    allowed: spec_fn(Seq<Q>, Q) -> bool,
) -> bool {
    &&& after.oracle == before.oracle
    &&& before.requests.len() <= after.requests.len()
    &&& after.requests.take(before.requests.len() as int) == before.requests
    &&& forall|k: int|
        before.requests.len() <= k < after.requests.len() ==> allowed(
            after.requests.take(k),
            #[trigger] after.requests[k],
        )
}

/// A program that does nothing puts no request.
pub proof fn lemma_within_none<Q, R, S>(
    before: World<Q, R, S>,
    after: World<Q, R, S>,
    allowed: spec_fn(Seq<Q>, Q) -> bool,
)
    requires
        after.oracle == before.oracle,
        after.requests == before.requests,
    ensures
        within(before, after, allowed),
{
    assert(after.requests.take(before.requests.len() as int) =~= before.requests);
}

/// A program that puts one request.
pub proof fn lemma_within_ask<Q, R, S>(
    w: World<Q, R, S>,
    request: Q,
    allowed: spec_fn(Seq<Q>, Q) -> bool,
)
    requires
        allowed(w.requests, request),
    ensures
        within(w, ask(w, request).0, allowed),
{
    let after = ask(w, request).0;
    assert(after.requests.take(w.requests.len() as int) =~= w.requests);
}

/// One program after another.
pub proof fn lemma_within_both<Q, R, S>(
    a: World<Q, R, S>,
    b: World<Q, R, S>,
    c: World<Q, R, S>,
    allowed: spec_fn(Seq<Q>, Q) -> bool,
)
    requires
        within(a, b, allowed),
        within(b, c, allowed),
    ensures
        within(a, c, allowed),
{
    let early = a.requests.len() as int;
    let middle = b.requests.len() as int;
    assert(c.requests.take(early) =~= c.requests.take(middle).take(early));
    assert forall|k: int| early <= k < c.requests.len() implies allowed(
        c.requests.take(k),
        #[trigger] c.requests[k],
    ) by {
        if k < middle {
            assert(c.requests[k] == c.requests.take(middle)[k]);
            assert(c.requests.take(k) =~= c.requests.take(middle).take(k));
            assert(b.requests[k] == c.requests[k]);
        }
    }
}

/// What keeps to a rule keeps to every wider one.
pub proof fn lemma_within_wider<Q, R, S>(
    before: World<Q, R, S>,
    after: World<Q, R, S>,
    allowed: spec_fn(Seq<Q>, Q) -> bool,
    wider: spec_fn(Seq<Q>, Q) -> bool,
)
    requires
        within(before, after, allowed),
        forall|earlier: Seq<Q>, request: Q|
            allowed(earlier, request) ==> #[trigger] wider(earlier, request),
    ensures
        within(before, after, wider),
{
}

} // verus!
