//! Key events for a guest, injected as scan codes through `VBoxManage`.
use super::executor;
use super::executor::{Answer, VBoxManageExecutor};
use crate::duplicate;
use crate::duplicate::{duplicate_all, Duplicate};
use crate::journal;
use crate::journal::{Exchange, Journaled, Kept, Relation, World};
use crate::keyboard_routing::{
    GuestKeyboardSink, KeyTransition, NormalizedKeyEvent, NormalizedKeyEventView,
};
use crate::sequences;
use crate::text::compose::{concat4, join};
use crate::text::model;
use crate::text::model::Text;
use crate::text::number::{byte_text, exit_text};
use crate::text::scan::trim;
use vstd::prelude::*;

verus! {

/// A keyboard of a guest.
pub struct VirtualBoxGuestKeyboardSink {
    vm_id: String,
    executor: Kept<Box<dyn VBoxManageExecutor>>,
    pressed: Vec<NormalizedKeyEvent>,
    journal: Ghost<Seq<Exchange<Seq<Text>, Answer>>>,
}

/// The state of a guest's keyboard: the machine, and the keys held down, in the order of their
/// scan codes.
#[verifier::ext_equal]
pub struct KeyboardView {
    pub vm_id: Text,
    pub pressed: Seq<NormalizedKeyEventView>,
}

impl Journaled for VirtualBoxGuestKeyboardSink {
    type Request = Seq<Text>;

    type Reply = Answer;

    type State = KeyboardView;

    closed spec fn journal(self) -> Seq<Exchange<Seq<Text>, Answer>> {
        self.journal@
    }

    closed spec fn state(self) -> KeyboardView {
        KeyboardView { vm_id: self.vm_id@, pressed: duplicate::views(self.pressed@) }
    }

    closed spec fn answers(self) -> Relation<Seq<Text>, Answer> {
        self.executor.0.answers()
    }
}

/// The world of a guest's keyboard.
pub type Keys = World<Seq<Text>, Answer, KeyboardView>;

/// The place of a key in the order: by scan code, then by the two prefixes.
pub open spec fn rank(event: NormalizedKeyEventView) -> int {
    event.scan_code * 4 + (if event.extended_e0 {
        2int
    } else {
        0
    }) + (if event.extended_e1 {
        1int
    } else {
        0
    })
}

/// Whether keys stand in their order, each once.
pub open spec fn in_order(pressed: Seq<NormalizedKeyEventView>) -> bool {
    forall|i: int, j: int|
        0 <= i < j < pressed.len() ==> rank(#[trigger] pressed[i]) < rank(#[trigger] pressed[j])
}

/// The keys below a place in the order.
pub open spec fn below(pressed: Seq<NormalizedKeyEventView>, place: int) -> Seq<
    NormalizedKeyEventView,
> {
    pressed.filter(|event: NormalizedKeyEventView| rank(event) < place)
}

/// The keys above a place in the order.
pub open spec fn above(pressed: Seq<NormalizedKeyEventView>, place: int) -> Seq<
    NormalizedKeyEventView,
> {
    pressed.filter(|event: NormalizedKeyEventView| rank(event) > place)
}

/// The keys held down after one more went down.
pub open spec fn with_key(pressed: Seq<NormalizedKeyEventView>, event: NormalizedKeyEventView) ->
    Seq<NormalizedKeyEventView> {
    below(pressed, rank(event)).push(event) + above(pressed, rank(event))
}

/// The keys held down after one came up.
pub open spec fn without_key(
    pressed: Seq<NormalizedKeyEventView>,
    event: NormalizedKeyEventView,
) -> Seq<NormalizedKeyEventView> {
    below(pressed, rank(event)) + above(pressed, rank(event))
}

/// Bytes as the arguments of a command.
pub open spec fn byte_arguments(bytes: Seq<u8>) -> Seq<Text> {
    bytes.map_values(
        |byte: u8| model::padded_left(model::hexadecimal(byte as nat), '0', 2),
    )
}

/// The command that injects an event.
pub open spec fn scancode_command(vm_id: Text, event: NormalizedKeyEventView) -> Seq<Text> {
    seq!["controlvm"@, vm_id, "keyboardputscancode"@] + byte_arguments(event.scancodes())
}

/// Injects an event.
pub open spec fn send_p(w: Keys, event: NormalizedKeyEventView) -> (Keys, Result<(), Text>) {
    let (w1, reply) = journal::ask(w, scancode_command(w.state.vm_id, event));
    (
        w1,
        match reply {
            Err(message) => Err(message),
            Ok(output) => if output.success {
                Ok(())
            } else {
                Err(
                    "VBoxManage keyboardputscancode failed (exit "@ + model::exit_code(
                        output.exit_code,
                    ) + "): "@ + model::trimmed(output.stderr),
                )
            },
        },
    )
}

pub open spec fn holding(w: Keys, pressed: Seq<NormalizedKeyEventView>) -> Keys {
    journal::in_state(w, KeyboardView { pressed, ..w.state })
}

pub open spec fn key_down_p(w: Keys, event: NormalizedKeyEventView) -> (Keys, Result<(), Text>) {
    match send_p(w, event) {
        (w1, Err(message)) => (w1, Err(message)),
        (w1, Ok(())) => (holding(w1, with_key(w1.state.pressed, event)), Ok(())),
    }
}

pub open spec fn key_up_p(w: Keys, event: NormalizedKeyEventView) -> (Keys, Result<(), Text>) {
    match send_p(w, event) {
        (w1, Err(message)) => (w1, Err(message)),
        (w1, Ok(())) => (holding(w1, without_key(w1.state.pressed, event)), Ok(())),
    }
}

/// The event of a key coming up.
pub open spec fn coming_up(event: NormalizedKeyEventView) -> NormalizedKeyEventView {
    NormalizedKeyEventView { transition: KeyTransition::Up, ..event }
}

/// Lets the first `count` of some keys come up, in turn. A key whose event cannot be injected
/// stays down, and the others go on.
pub open spec fn release_p(w: Keys, events: Seq<NormalizedKeyEventView>, count: int) -> (
    Keys,
    Seq<Text>,
)
    decreases count,
{
    if count <= 0 {
        (w, seq![])
    } else {
        let (w1, errors) = release_p(w, events, count - 1);
        match send_p(w1, coming_up(events[count - 1])) {
            (w2, Ok(())) => (
                holding(w2, without_key(w2.state.pressed, events[count - 1])),
                errors,
            ),
            (w2, Err(message)) => (w2, errors.push(message)),
        }
    }
}

/// Lets all keys come up.
pub open spec fn release_all_p(w: Keys) -> (Keys, Result<(), Text>) {
    let (w1, errors) = release_p(w, w.state.pressed, w.state.pressed.len() as int);
    (
        w1,
        if errors.len() == 0 {
            Ok(())
        } else {
            Err(model::joined(errors, "; "@))
        },
    )
}

proof fn lemma_filter_prefix(
    s: Seq<NormalizedKeyEventView>,
    keep: spec_fn(NormalizedKeyEventView) -> bool,
    i: int,
)
    requires
        0 <= i < s.len(),
    ensures
        s.take(0).filter(keep) == Seq::<NormalizedKeyEventView>::empty(),
        s.take(i + 1).filter(keep) == (if keep(s[i]) {
            s.take(i).filter(keep).push(s[i])
        } else {
            s.take(i).filter(keep)
        }),
{
    reveal(Seq::filter);
    assert(s.take(i + 1).drop_last() == s.take(i));
    assert(s.take(i + 1).last() == s[i]);
}

fn place_of(event: &NormalizedKeyEvent) -> (r: u32)
    ensures
        r == rank(event@),
{
    let e0: u32 = if event.extended_e0 {
        2
    } else {
        0
    };
    let e1: u32 = if event.extended_e1 {
        1
    } else {
        0
    };
    event.scan_code as u32 * 4 + e0 + e1
}

fn select(events: &Vec<NormalizedKeyEvent>, place: u32, upper: bool) -> (r: Vec<NormalizedKeyEvent>)
    ensures
        duplicate::views(r@) == (if upper {
            above(duplicate::views(events@), place as int)
        } else {
            below(duplicate::views(events@), place as int)
        }),
{
    let ghost all = duplicate::views(events@);
    let ghost keep = if upper {
        |event: NormalizedKeyEventView| rank(event) > place
    } else {
        |event: NormalizedKeyEventView| rank(event) < place
    };
    let mut found: Vec<NormalizedKeyEvent> = Vec::new();
    let mut i: usize = 0;
    proof {
        reveal(Seq::filter);
        assert(duplicate::views(found@) =~= all.take(0).filter(keep));
    }
    while i < events.len()
        invariant
            i <= events@.len(),
            all == duplicate::views(events@),
            keep == (if upper {
                |event: NormalizedKeyEventView| rank(event) > place
            } else {
                |event: NormalizedKeyEventView| rank(event) < place
            }),
            duplicate::views(found@) == all.take(i as int).filter(keep),
        decreases events.len() - i,
    {
        let event = &events[i];
        proof {
            lemma_filter_prefix(all, keep, i as int);
            assert(all[i as int] == event@);
        }
        let here = place_of(event);
        if (upper && here > place) || (!upper && here < place) {
            let ghost before = found@;
            found.push(event.duplicate());
            assert(duplicate::views(found@) =~= duplicate::views(before).push(event@));
        }
        i += 1;
    }
    assert(all.take(i as int) =~= all);
    proof {
        if upper {
            assert(all.filter(keep) == above(all, place as int));
        } else {
            assert(all.filter(keep) == below(all, place as int));
        }
    }
    found
}

impl VirtualBoxGuestKeyboardSink {
    /// The keys held down stand in order, each once.
    #[verifier::type_invariant]
    closed spec fn keys_in_order(self) -> bool {
        in_order(duplicate::views(self.pressed@))
    }

    /// Whether this is the executor through which the keyboard speaks.
    pub closed spec fn asks(self, executor: &Box<dyn VBoxManageExecutor>) -> bool {
        &self.executor.0 == executor
    }

    /// The keyboard of a machine, with no key down.
    pub fn new(vm_id: String, executor: Box<dyn VBoxManageExecutor>) -> (r: Self)
        ensures
            r.asks(&executor),
            r.answers() == executor.answers(),
            r.journal() == Seq::<Exchange<Seq<Text>, Answer>>::empty(),
            r.state() == (KeyboardView { vm_id: vm_id@, pressed: seq![] }),
    {
        let executor = Kept(executor);
        let sink = VirtualBoxGuestKeyboardSink {
            vm_id,
            executor,
            pressed: Vec::new(),
            journal: Ghost(Seq::empty()),
        };
        sink
    }

    fn send(&mut self, event: &NormalizedKeyEvent) -> (r: Result<(), String>)
        ensures
            journal::runs(
                *old(self),
                *final(self),
                |w: Keys| send_p(w, event@),
                model::with_message(r),
            ),
    {
        let mut arguments: Vec<String> = Vec::new();
        arguments.push("controlvm".to_owned());
        arguments.push(self.vm_id.clone());
        arguments.push("keyboardputscancode".to_owned());
        let bytes = event.virtual_box_scancodes();
        let ghost start = seq!["controlvm"@, self.vm_id@, "keyboardputscancode"@];
        let ghost wanted = byte_arguments(bytes@);
        let mut i: usize = 0;
        assert(model::texts(arguments@) =~= start + wanted.take(0));
        while i < bytes.len()
            invariant
                i <= bytes@.len(),
                wanted == byte_arguments(bytes@),
                model::texts(arguments@) == start + wanted.take(i as int),
            decreases bytes.len() - i,
        {
            let ghost before = arguments@;
            arguments.push(byte_text(bytes[i]));
            proof {
                assert(model::texts(arguments@) =~= model::texts(before).push(wanted[i as int]));
                assert(start + wanted.take(i + 1) =~= (start + wanted.take(i as int)).push(
                    wanted[i as int],
                ));
            }
            i += 1;
        }
        assert(wanted.take(i as int) =~= wanted);
        let ghost earlier = *self;
        proof {
            use_type_invariant(&*self);
        }
        let answer = self.executor.0.execute(arguments.as_slice());
        let ghost request = model::texts(arguments@);
        let ghost reply = executor::answer_view(answer);
        self.journal = Ghost(self.journal@.push(Exchange { request, reply }));
        proof {
            journal::lemma_asked(earlier, *self, request, reply, earlier.answers());
            assert(request == scancode_command(earlier.state().vm_id, event@));
        }
        match answer {
            Err(message) => Err(message),
            Ok(output) => if output.success {
                Ok(())
            } else {
                Err(
                    concat4(
                        "VBoxManage keyboardputscancode failed (exit ",
                        exit_text(output.exit_code).as_str(),
                        "): ",
                        trim(output.stderr.as_str()).as_str(),
                    ),
                )
            },
        }
    }

    fn drop_key(&mut self, event: &NormalizedKeyEvent)
        ensures
            final(self).journal() == old(self).journal(),
            final(self).answers() == old(self).answers(),
            final(self).state() == (KeyboardView {
                pressed: without_key(old(self).state().pressed, event@),
                ..old(self).state()
            }),
    {
        let place = place_of(event);
        let mut lower = select(&self.pressed, place, false);
        let mut upper = select(&self.pressed, place, true);
        let ghost low = lower@;
        let ghost high = upper@;
        lower.append(&mut upper);
        proof {
            use_type_invariant(&*self);
            law_held_keys_stay_in_order(self.state().pressed, event@);
        }
        assert(duplicate::views(lower@) =~= duplicate::views(low) + duplicate::views(high));
        self.pressed = lower;
    }
}

impl GuestKeyboardSink for VirtualBoxGuestKeyboardSink {
    fn key_down(&mut self, event: &NormalizedKeyEvent) -> (r: Result<(), String>)
        ensures
            journal::runs(
                *old(self),
                *final(self),
                |w: Keys| key_down_p(w, event@),
                model::with_message(r),
            ),
            in_order(final(self).state().pressed),
    {
        let sent = self.send(event);
        proof {
            use_type_invariant(&*self);
        }
        match sent {
            Err(message) => Err(message),
            Ok(()) => {
                let place = place_of(event);
                let mut lower = select(&self.pressed, place, false);
                let mut upper = select(&self.pressed, place, true);
                let ghost low = lower@;
                let ghost high = upper@;
                let copy = event.duplicate();
                lower.push(copy);
                lower.append(&mut upper);
                proof {
                    use_type_invariant(&*self);
                    law_held_keys_stay_in_order(self.state().pressed, event@);
                }
                assert(duplicate::views(lower@) =~= duplicate::views(low).push(event@)
                    + duplicate::views(high));
                self.pressed = lower;
                Ok(())
            },
        }
    }

    fn key_up(&mut self, event: &NormalizedKeyEvent) -> (r: Result<(), String>)
        ensures
            journal::runs(
                *old(self),
                *final(self),
                |w: Keys| key_up_p(w, event@),
                model::with_message(r),
            ),
            in_order(final(self).state().pressed),
    {
        let sent = self.send(event);
        if sent.is_ok() {
            self.drop_key(event);
        }
        proof {
            use_type_invariant(&*self);
        }
        sent
    }

    fn release_all(&mut self) -> (r: Result<(), String>)
        ensures
            journal::runs(
                *old(self),
                *final(self),
                |w: Keys| release_all_p(w),
                model::with_message(r),
            ),
            in_order(final(self).state().pressed),
            r is Ok ==> final(self).state().pressed.len() == 0,
    {
        proof {
            use_type_invariant(&*self);
        }
        let pressed = duplicate_all(&self.pressed);
        let mut errors: Vec<String> = Vec::new();
        let ghost start = *self;
        let ghost events = duplicate::views(pressed@);
        let mut i: usize = 0;
        assert(model::texts(errors@) =~= Seq::<Text>::empty());
        while i < pressed.len()
            invariant
                i <= pressed@.len(),
                events == duplicate::views(pressed@),
                start == *old(self),
                in_order(start.state().pressed),
                journal::runs(
                    start,
                    *self,
                    |w: Keys| release_p(w, events, i as int),
                    model::texts(errors@),
                ),
            decreases pressed.len() - i,
        {
            let ghost before = *self;
            let ghost earlier = model::texts(errors@);
            let mut event = pressed[i].duplicate();
            event.transition = KeyTransition::Up;
            assert(event@ == coming_up(events[i as int]));
            assert(rank(event@) == rank(events[i as int]));
            match self.send(&event) {
                Ok(()) => {
                    self.drop_key(&event);
                },
                Err(message) => {
                    errors.push(message);
                    assert(model::texts(errors@) =~= earlier.push(message@));
                },
            }
            i += 1;
        }
        assert(start.state().pressed == events);
        proof {
            use_type_invariant(&*self);
            let oracle = journal::told(self.journal());
            assert(journal::agrees(oracle, self.journal()));
            let w = journal::world(start, oracle);
            assert(in_order(w.state.pressed));
            law_releasing_leaves_no_key_down(w);
        }
        if errors.len() == 0 {
            Ok(())
        } else {
            Err(join(&errors, "; "))
        }
    }
}

// ---- Laws ------------------------------------------------------------------------------

proof fn lemma_filter_order(
    pressed: Seq<NormalizedKeyEventView>,
    keep: spec_fn(NormalizedKeyEventView) -> bool,
)
    requires
        in_order(pressed),
    ensures
        in_order(pressed.filter(keep)),
        forall|i: int|
            0 <= i < pressed.filter(keep).len() ==> keep(#[trigger] pressed.filter(keep)[i])
                && pressed.contains(pressed.filter(keep)[i]),
    decreases pressed.len(),
{
    reveal(Seq::filter);
    assert forall|i: int| 0 <= i < pressed.filter(keep).len() implies keep(
        #[trigger] pressed.filter(keep)[i],
    ) && pressed.contains(pressed.filter(keep)[i]) by {
        sequences::lemma_kept(pressed, keep, i);
    }
    if pressed.len() > 0 {
        let shorter = pressed.drop_last();
        lemma_filter_order(shorter, keep);
        assert forall|i: int| 0 <= i < shorter.filter(keep).len() implies rank(
            #[trigger] shorter.filter(keep)[i],
        ) < rank(pressed.last()) by {
            let k = choose|k: int| 0 <= k < shorter.len() && shorter[k] == shorter.filter(keep)[i];
            assert(pressed[k] == shorter[k]);
        }
    }
}

/// The keys that are held down stay in order, each held once, whether one more goes down or one
/// comes up, and a key that came up is not held.
pub proof fn law_held_keys_stay_in_order(
    pressed: Seq<NormalizedKeyEventView>,
    event: NormalizedKeyEventView,
)
    requires
        in_order(pressed),
    ensures
        in_order(with_key(pressed, event)),
        in_order(without_key(pressed, event)),
        with_key(pressed, event).contains(event),
        forall|i: int|
            0 <= i < without_key(pressed, event).len() ==> rank(
                #[trigger] without_key(pressed, event)[i],
            ) != rank(event),
{
    let place = rank(event);
    lemma_filter_order(pressed, |held: NormalizedKeyEventView| rank(held) < place);
    lemma_filter_order(pressed, |held: NormalizedKeyEventView| rank(held) > place);
    let first = below(pressed, place);
    let last = above(pressed, place);
    assert(forall|i: int| 0 <= i < first.len() ==> rank(#[trigger] first[i]) < place);
    assert(forall|i: int| 0 <= i < last.len() ==> rank(#[trigger] last[i]) > place);
    assert(with_key(pressed, event)[first.len() as int] == event);
}

proof fn lemma_split_order(pressed: Seq<NormalizedKeyEventView>, place: int, at: int)
    requires
        in_order(pressed),
        0 <= at <= pressed.len(),
        forall|i: int| 0 <= i < at ==> rank(#[trigger] pressed[i]) < place,
        forall|i: int| at <= i < pressed.len() ==> rank(#[trigger] pressed[i]) >= place,
    ensures
        below(pressed, place) == pressed.take(at),
        above(pressed, place) == (if at < pressed.len() && rank(pressed[at]) == place {
            pressed.skip(at + 1)
        } else {
            pressed.skip(at)
        }),
    decreases pressed.len(),
{
    reveal(Seq::filter);
    if pressed.len() > 0 {
        let shorter = pressed.drop_last();
        let n = shorter.len() as int;
        assert forall|i: int| 0 <= i < n implies #[trigger] shorter[i] == pressed[i] by {}
        if at < pressed.len() {
            lemma_split_order(shorter, place, at);
            assert(pressed.take(at) =~= shorter.take(at));
            if at < n {
                assert(rank(pressed[at]) < rank(pressed[n]));
                assert(pressed.skip(at + 1) =~= shorter.skip(at + 1).push(pressed[n]));
                assert(pressed.skip(at) =~= shorter.skip(at).push(pressed[n]));
            } else {
                assert(shorter.skip(at) =~= Seq::<NormalizedKeyEventView>::empty());
                assert(pressed.skip(at) =~= seq![pressed[n]]);
                assert(pressed.skip(at + 1) =~= Seq::<NormalizedKeyEventView>::empty());
            }
        } else {
            lemma_split_order(shorter, place, at - 1);
            assert(pressed.take(at) =~= shorter.take(at - 1).push(pressed[n]));
            assert(shorter.skip(at - 1) =~= Seq::<NormalizedKeyEventView>::empty());
            assert(pressed.skip(at) =~= Seq::<NormalizedKeyEventView>::empty());
        }
    } else {
        assert(pressed.take(at) =~= pressed);
        assert(pressed.skip(at) =~= pressed);
    }
}

proof fn lemma_first_released(pressed: Seq<NormalizedKeyEventView>)
    requires
        in_order(pressed),
        pressed.len() > 0,
    ensures
        without_key(pressed, pressed[0]) == pressed.skip(1),
{
    assert forall|i: int| 0 <= i < pressed.len() implies rank(#[trigger] pressed[i]) >= rank(
        pressed[0],
    ) by {
        if i > 0 {
            assert(rank(pressed[0]) < rank(pressed[i]));
        }
    }
    lemma_split_order(pressed, rank(pressed[0]), 0);
    assert(pressed.take(0) + pressed.skip(1) =~= pressed.skip(1));
}

/// The commands that let the first `count` of some keys come up.
pub open spec fn release_commands(
    vm_id: Text,
    events: Seq<NormalizedKeyEventView>,
    count: int,
) -> Seq<Seq<Text>> {
    Seq::new(count as nat, |i: int| scancode_command(vm_id, coming_up(events[i])))
}

proof fn lemma_release_requests(w: Keys, events: Seq<NormalizedKeyEventView>, count: int)
    requires
        0 <= count <= events.len(),
    ensures
        release_p(w, events, count).0.state.vm_id == w.state.vm_id,
        release_p(w, events, count).0.requests == w.requests + release_commands(
            w.state.vm_id,
            events,
            count,
        ),
    decreases count,
{
    if count > 0 {
        lemma_release_requests(w, events, count - 1);
        assert(w.requests + release_commands(w.state.vm_id, events, count) =~= (w.requests
            + release_commands(w.state.vm_id, events, count - 1)).push(
            scancode_command(w.state.vm_id, coming_up(events[count - 1])),
        ));
    } else {
        assert(w.requests + release_commands(w.state.vm_id, events, count) =~= w.requests);
    }
}

proof fn lemma_release_order(w: Keys, events: Seq<NormalizedKeyEventView>, count: int)
    requires
        in_order(w.state.pressed),
        0 <= count <= events.len(),
    ensures
        in_order(release_p(w, events, count).0.state.pressed),
    decreases count,
{
    if count > 0 {
        lemma_release_order(w, events, count - 1);
        law_held_keys_stay_in_order(
            release_p(w, events, count - 1).0.state.pressed,
            events[count - 1],
        );
    }
}

proof fn lemma_skip_order(pressed: Seq<NormalizedKeyEventView>, count: int)
    requires
        in_order(pressed),
        0 <= count <= pressed.len(),
    ensures
        in_order(pressed.skip(count)),
{
    let held = pressed.skip(count);
    assert forall|i: int, j: int| 0 <= i < j < held.len() implies rank(#[trigger] held[i]) < rank(
        #[trigger] held[j],
    ) by {
        assert(held[i] == pressed[i + count]);
        assert(held[j] == pressed[j + count]);
    }
}

proof fn lemma_released(w: Keys, count: int)
    requires
        in_order(w.state.pressed),
        0 <= count <= w.state.pressed.len(),
    ensures
        ({
            let (after, errors) = release_p(w, w.state.pressed, count);
            errors.len() == 0 ==> after.state.pressed == w.state.pressed.skip(count)
        }),
    decreases count,
{
    let events = w.state.pressed;
    if count > 0 {
        lemma_released(w, count - 1);
        let held = events.skip(count - 1);
        assert(without_key(held, events[count - 1]) == events.skip(count)) by {
            lemma_skip_order(events, count - 1);
            lemma_first_released(held);
            assert(held[0] == events[count - 1]);
            assert(held.skip(1) =~= events.skip(count));
        }
    } else {
        assert(events.skip(0) =~= events);
    }
}

/// Releasing lets every key that is held down come up, each once and in order, whatever becomes
/// of the others. Where it succeeds no key is held down, and else those that are stay in order.
pub proof fn law_releasing_leaves_no_key_down(w: Keys)
    requires
        in_order(w.state.pressed),
    ensures
        release_all_p(w).0.requests == w.requests + release_commands(
            w.state.vm_id,
            w.state.pressed,
            w.state.pressed.len() as int,
        ),
        release_all_p(w).1 is Ok ==> release_all_p(w).0.state.pressed.len() == 0,
        in_order(release_all_p(w).0.state.pressed),
{
    let count = w.state.pressed.len() as int;
    lemma_release_requests(w, w.state.pressed, count);
    lemma_release_order(w, w.state.pressed, count);
    lemma_released(w, count);
}

proof fn lemma_place(pressed: Seq<NormalizedKeyEventView>, place: int, from: int) -> (at: int)
    requires
        in_order(pressed),
        0 <= from <= pressed.len(),
        forall|i: int| 0 <= i < from ==> rank(#[trigger] pressed[i]) < place,
    ensures
        0 <= at <= pressed.len(),
        forall|i: int| 0 <= i < at ==> rank(#[trigger] pressed[i]) < place,
        forall|i: int| at <= i < pressed.len() ==> rank(#[trigger] pressed[i]) >= place,
    decreases pressed.len() - from,
{
    if from < pressed.len() && rank(pressed[from]) < place {
        lemma_place(pressed, place, from + 1)
    } else {
        assert forall|i: int| from <= i < pressed.len() implies rank(#[trigger] pressed[i])
            >= place by {
            if i > from {
                assert(rank(pressed[from]) < rank(pressed[i]));
            }
        }
        from
    }
}

proof fn lemma_taken_out(
    pressed: Seq<NormalizedKeyEventView>,
    held: Seq<NormalizedKeyEventView>,
    event: NormalizedKeyEventView,
    at: int,
)
    requires
        0 <= at <= pressed.len(),
        forall|i: int| 0 <= i < at ==> rank(#[trigger] pressed[i]) < rank(event),
        forall|i: int| at <= i < pressed.len() ==> rank(#[trigger] pressed[i]) >= rank(event),
        held == pressed.take(at).push(event) + pressed.skip(at),
        in_order(held),
    ensures
        without_key(held, event) == pressed,
{
    let place = rank(event);
    assert(held[at] == event);
    assert(below(held, place) == held.take(at) && above(held, place) == held.skip(at + 1)) by {
        assert forall|i: int| 0 <= i < at implies rank(#[trigger] held[i]) < place by {
            assert(held[i] == pressed[i]);
        }
        assert forall|i: int| at <= i < held.len() implies rank(#[trigger] held[i]) >= place by {
            if i > at {
                assert(held[i] == pressed[i - 1]);
            }
        }
        lemma_split_order(held, place, at);
    }
    assert(held.take(at) + held.skip(at + 1) =~= pressed);
}

/// A key that goes down and comes up again leaves the keys that are held down as they were,
/// unless it was one of them.
pub proof fn law_a_key_stroke_leaves_no_trace(
    pressed: Seq<NormalizedKeyEventView>,
    event: NormalizedKeyEventView,
)
    requires
        in_order(pressed),
        forall|i: int| 0 <= i < pressed.len() ==> rank(#[trigger] pressed[i]) != rank(event),
    ensures
        without_key(with_key(pressed, event), coming_up(event)) == pressed,
{
    let at = lemma_place(pressed, rank(event), 0);
    assert(rank(coming_up(event)) == rank(event));
    assert(with_key(pressed, event) == pressed.take(at).push(event) + pressed.skip(at)) by {
        lemma_split_order(pressed, rank(event), at);
    }
    law_held_keys_stay_in_order(pressed, event);
    lemma_taken_out(pressed, with_key(pressed, event), event, at);
}

/// Whether two characters are the hexadecimal digits of a byte, the higher one first.
pub open spec fn are_digits_of(word: Text, byte: u8) -> bool {
    &&& word.len() == 2
    &&& word[0] == digit_of(byte as int / 16)
    &&& word[1] == digit_of(byte as int % 16)
}

/// The hexadecimal digit of a value below sixteen.
pub open spec fn digit_of(value: int) -> char {
    seq![
        '0',
        '1',
        '2',
        '3',
        '4',
        '5',
        '6',
        '7',
        '8',
        '9',
        'a',
        'b',
        'c',
        'd',
        'e',
        'f',
    ][value]
}

proof fn lemma_digit(value: nat)
    requires
        value < 16,
    ensures
        model::hex_char(value) == digit_of(value as int),
{
    if value < 10 {
        assert(model::hex_char(value) as u32 == 48 + value);
        assert(digit_of(value as int) as u32 == 48 + value);
    } else {
        assert(model::hex_char(value) as u32 == 87 + value);
        assert(digit_of(value as int) as u32 == 87 + value);
    }
}

proof fn lemma_two_digits(byte: u8)
    ensures
        are_digits_of(model::padded_left(model::hexadecimal(byte as nat), '0', 2), byte),
{
    let n = byte as nat;
    lemma_digit(n % 16);
    if n < 16 {
        assert(model::hexadecimal(n) == seq![model::hex_char(n)]);
        assert(n / 16 == 0 && n % 16 == n);
    } else {
        assert(n / 16 < 16);
        lemma_digit(n / 16);
        assert(model::hexadecimal(n / 16) == seq![model::hex_char(n / 16)]);
        assert(model::hexadecimal(n) == seq![model::hex_char(n / 16)].push(
            model::hex_char(n % 16),
        ));
    }
}

/// An event goes to the keyboard of the sink's machine and to nothing else, by one command: one
/// word of two hexadecimal digits for each byte that a keyboard would send, in their order. It
/// succeeds exactly where the command does.
pub proof fn law_an_event_is_sent_byte_by_byte(w: Keys, event: NormalizedKeyEventView)
    ensures
        ({
            let bytes = event.scancodes();
            let command = scancode_command(w.state.vm_id, event);
            let answer = (w.oracle)(w.requests.len() as int);
            let (after, sent) = send_p(w, event);
            &&& command.len() == 3 + bytes.len()
            &&& command[0] == "controlvm"@
            &&& command[1] == w.state.vm_id
            &&& command[2] == "keyboardputscancode"@
            &&& forall|i: int|
                0 <= i < bytes.len() ==> are_digits_of(#[trigger] command[3 + i], bytes[i])
            &&& after.requests == w.requests.push(command)
            &&& after.state == w.state
            &&& sent is Ok <==> answer is Ok && answer->Ok_0.success
        }),
{
    let bytes = event.scancodes();
    let command = scancode_command(w.state.vm_id, event);
    assert forall|i: int| 0 <= i < bytes.len() implies are_digits_of(
        #[trigger] command[3 + i],
        bytes[i],
    ) by {
        lemma_two_digits(bytes[i]);
        assert(command[3 + i] == byte_arguments(bytes)[i]);
    }
}

/// A key that went down is held, one that came up is not, and the other keys are held as they
/// were. Keys are told apart by their code and its two prefixes.
pub proof fn law_the_keys_held_are_those_down(
    pressed: Seq<NormalizedKeyEventView>,
    event: NormalizedKeyEventView,
    other: NormalizedKeyEventView,
)
    requires
        in_order(pressed),
    ensures
        rank(other) == rank(event) <==> other.scan_code == event.scan_code && other.extended_e0
            == event.extended_e0 && other.extended_e1 == event.extended_e1,
        with_key(pressed, event).contains(event),
        rank(other) == rank(event) ==> !without_key(pressed, event).contains(other),
        rank(other) != rank(event) ==> (with_key(pressed, event).contains(other)
            <==> pressed.contains(other)),
        rank(other) != rank(event) ==> (without_key(pressed, event).contains(other)
            <==> pressed.contains(other)),
{
    law_held_keys_stay_in_order(pressed, event);
    let place = rank(event);
    let at = lemma_place(pressed, place, 0);
    lemma_split_order(pressed, place, at);
    let with = with_key(pressed, event);
    let without = without_key(pressed, event);
    let cut = if at < pressed.len() && rank(pressed[at]) == place {
        at + 1
    } else {
        at
    };
    assert(with == pressed.take(at).push(event) + pressed.skip(cut));
    assert(without == pressed.take(at) + pressed.skip(cut));
    if rank(other) != place {
        if pressed.contains(other) {
            let i = choose|i: int| 0 <= i < pressed.len() && pressed[i] == other;
            if i < at {
                assert(with[i] == other && without[i] == other);
            } else {
                assert(i >= cut);
                assert(with[at + 1 + i - cut] == other && without[at + i - cut] == other);
            }
        }
        if with.contains(other) {
            let i = choose|i: int| 0 <= i < with.len() && with[i] == other;
            if i < at {
                assert(pressed[i] == other);
            } else if i > at {
                assert(pressed[i - at - 1 + cut] == other);
            }
        }
        if without.contains(other) {
            let i = choose|i: int| 0 <= i < without.len() && without[i] == other;
            if i < at {
                assert(pressed[i] == other);
            } else {
                assert(pressed[i - at + cut] == other);
            }
        }
    }
}

/// A key is noted as held exactly where its event was injected, and as let go likewise.
pub proof fn law_keys_are_noted_as_they_were_sent(w: Keys, event: NormalizedKeyEventView)
    requires
        in_order(w.state.pressed),
    ensures
        ({
            let (after, sent) = key_down_p(w, event);
            &&& sent is Ok ==> after.state.pressed.contains(event)
            &&& after.requests == w.requests.push(scancode_command(w.state.vm_id, event))
            &&& after.state.vm_id == w.state.vm_id
        }),
        ({
            let (after, sent) = key_up_p(w, event);
            &&& sent is Ok ==> !after.state.pressed.contains(event)
            &&& after.requests == w.requests.push(scancode_command(w.state.vm_id, event))
            &&& after.state.vm_id == w.state.vm_id
        }),
        coming_up(event).transition == KeyTransition::Up,
        coming_up(event).key() == event.key(),
{
    law_the_keys_held_are_those_down(w.state.pressed, event, event);
}

/// An event that cannot be injected changes nothing about the keys that are held down.
pub proof fn law_a_lost_event_changes_nothing(w: Keys, event: NormalizedKeyEventView)
    ensures
        key_down_p(w, event).1 is Err ==> key_down_p(w, event).0.state == w.state,
        key_up_p(w, event).1 is Err ==> key_up_p(w, event).0.state == w.state,
{
}

} // verus!
