use vstd::prelude::*;

use crate::sink::ConsoleImpl;
use crate::sink::DefaultConsole;

verus! {

/// The registry: a cell holding at most one installed sink together with
/// an always-present, resource-free fallback sink. Exactly one logical
/// current sink exists at any time: the installed one if present, else
/// the fallback. The registry is the sole owner of the installed sink;
/// a displaced sink is torn down at once and never handed out again.
pub struct Console<T: ConsoleImpl> {
    current: Option<T>,
    default: DefaultConsole,
    retired: Ghost<Seq<T>>,
}

/// What `Console::get_current` resolves to: a reference to the installed
/// sink if one is present, else to the fallback sink. The reference must
/// not be retained beyond the access in which it was obtained.
pub enum ActiveConsole<'a, T: ConsoleImpl> {
    Installed(&'a T),
    Fallback(&'a DefaultConsole),
}

impl<T: ConsoleImpl> Console<T> {
    /// True when a sink has been installed and not yet displaced.
    pub closed spec fn installed(&self) -> bool {
        self.current is Some
    }

    /// The installed sink.
    pub closed spec fn installed_sink(&self) -> T
        recommends
            self.installed(),
    {
        self.current->Some_0
    }

    /// The characters the fallback sink has silently discarded: text
    /// emitted while no sink was installed.
    pub closed spec fn discarded(&self) -> Seq<char> {
        self.default.received()
    }

    /// The sinks displaced so far, oldest first, each in the state it had
    /// after its teardown hook ran.
    pub closed spec fn retired_sinks(&self) -> Seq<T> {
        self.retired@
    }

    /// The registry's invariant: the installed sink, if any, is still
    /// live, the fallback is never torn down, and every displaced sink
    /// has had its teardown hook run.
    pub closed spec fn wf(&self) -> bool {
        &&& (self.installed() ==> !self.installed_sink().torn_down())
        &&& !self.default.torn_down()
        &&& (forall|i: int|
            0 <= i < self.retired_sinks().len() ==> (#[trigger] self.retired_sinks()[i]).torn_down())
    }

    /// A fresh registry: no sink installed, nothing discarded, nothing
    /// displaced.
    pub fn new() -> (r: Console<T>)
        ensures
            r.wf(),
            !r.installed(),
            r.discarded() == Seq::<char>::empty(),
            r.retired_sinks() == Seq::<T>::empty(),
    {
        Console { current: None, default: DefaultConsole::new(), retired: Ghost(Seq::empty()) }
    }

    /// The currently active sink: the installed one if present, else the
    /// fallback.
    pub fn get_current<'a>(&'a self) -> (r: ActiveConsole<'a, T>)
        ensures
            r is Installed <==> self.installed(),
            r is Installed ==> *r->Installed_0 == self.installed_sink(),
            r is Fallback ==> (*r->Fallback_0).received() == self.discarded(),
    {
        match &self.current {
            Some(sink) => ActiveConsole::Installed(sink),
            None => ActiveConsole::Fallback(&self.default),
        }
    }

    /// Install `console` as the active sink. The registry takes ownership;
    /// a previously active sink is displaced and its teardown hook runs
    /// before the call returns. Never fails, however often it is called.
    pub fn replace(&mut self, console: T)
        requires
            old(self).wf(),
            !console.torn_down(),
        ensures
            final(self).wf(),
            replaced(*old(self), console, *final(self)),
    {
        let prev = self.current.take();
        match prev {
            Some(mut sink) => {
                sink.teardown();
                self.retired = Ghost(self.retired@.push(sink));
                self.current = Some(console);
                proof {
                    assert(self.retired_sinks().subrange(0, old(self).retired_sinks().len() as int)
                        =~= old(self).retired_sinks());
                    assert(self.retired_sinks().last() == sink);
                    assert forall|i: int| 0 <= i < self.retired_sinks().len() implies (#[trigger] self
                        .retired_sinks()[i]).torn_down() by {
                        if i < old(self).retired_sinks().len() {
                            assert(self.retired_sinks()[i] == old(self).retired_sinks()[i]);
                            assert(old(self).retired_sinks()[i].torn_down());
                        }
                    }
                }
            },
            None => {
                self.current = Some(console);
                proof {
                    assert forall|i: int| 0 <= i < self.retired_sinks().len() implies (#[trigger] self
                        .retired_sinks()[i]).torn_down() by {
                        assert(old(self).retired_sinks()[i].torn_down());
                    }
                }
            },
        }
    }

    /// Acquire the current sink and forward `s` to it. Text emitted while
    /// no sink is installed is silently discarded by the fallback; it
    /// never faults and never reaches a device.
    pub fn emit(&mut self, s: &str)
        requires
            old(self).wf(),
        ensures
            final(self).wf(),
            emitted(*old(self), s@, *final(self)),
    {
        match &mut self.current {
            Some(sink) => sink.puts(s),
            None => self.default.puts(s),
        }
        proof {
            assert forall|i: int| 0 <= i < self.retired_sinks().len() implies (#[trigger] self
                .retired_sinks()[i]).torn_down() by {
                assert(old(self).retired_sinks()[i].torn_down());
            }
        }
    }
}

/// How one `emit` call relates the registry state before (`pre`) and
/// after (`post`) forwarding the text `s`: the active sink receives
/// exactly `s`, appended in order, and nothing else changes. In
/// particular no text reaches the fallback while a sink is installed,
/// and no displaced sink is ever touched again.
pub open spec fn emitted<T: ConsoleImpl>(pre: Console<T>, s: Seq<char>, post: Console<T>) -> bool {
    &&& post.installed() == pre.installed()
    &&& (pre.installed() ==> {
        &&& post.installed_sink().received() == pre.installed_sink().received() + s
        &&& !post.installed_sink().torn_down()
        &&& post.discarded() == pre.discarded()
    })
    &&& (!pre.installed() ==> post.discarded() == pre.discarded() + s)
    &&& post.retired_sinks() == pre.retired_sinks()
}

/// How one `replace` call relates the registry state before (`pre`) and
/// after (`post`) installing `sink`: `sink` is active and untouched, the
/// fallback saw nothing, and a previously active sink was appended to the
/// retired sinks after its teardown hook ran — torn down, with the text it
/// had received left exactly as it was.
pub open spec fn replaced<T: ConsoleImpl>(pre: Console<T>, sink: T, post: Console<T>) -> bool {
    &&& post.installed()
    &&& post.installed_sink() == sink
    &&& post.discarded() == pre.discarded()
    &&& (!pre.installed() ==> post.retired_sinks() == pre.retired_sinks())
    &&& (pre.installed() ==> {
        &&& post.retired_sinks().len() == pre.retired_sinks().len() + 1
        &&& post.retired_sinks().subrange(0, pre.retired_sinks().len() as int)
            == pre.retired_sinks()
        &&& post.retired_sinks().last().torn_down()
        &&& post.retired_sinks().last().received() == pre.installed_sink().received()
    })
}

/// The texts of a sequence of emit calls, concatenated in order.
pub open spec fn concat_all(texts: Seq<Seq<char>>) -> Seq<char>
    decreases texts.len(),
{
    if texts.len() == 0 {
        Seq::empty()
    } else {
        texts[0] + concat_all(texts.skip(1))
    }
}

/// A chain of emit calls: starting from `pre`, forwarding each element of
/// `texts` in order can leave the registry in state `post`.
pub open spec fn emitted_all<T: ConsoleImpl>(
    pre: Console<T>,
    texts: Seq<Seq<char>>,
    post: Console<T>,
) -> bool
    decreases texts.len(),
{
    if texts.len() == 0 {
        post == pre
    } else {
        exists|mid: Console<T>|
            #[trigger] emitted(pre, texts[0], mid) && emitted_all(mid, texts.skip(1), post)
    }
}

/// Fallback safety: any sequence of emit calls made before any sink is
/// installed leaves the registry without an installed sink and touches no
/// displaced sink; the emitted text is exactly the text the fallback
/// silently discarded, so no device receives any of it.
pub proof fn lemma_fallback_safety<T: ConsoleImpl>(
    pre: Console<T>,
    texts: Seq<Seq<char>>,
    post: Console<T>,
)
    requires
        !pre.installed(),
        emitted_all(pre, texts, post),
    ensures
        !post.installed(),
        post.retired_sinks() == pre.retired_sinks(),
        post.discarded() == pre.discarded() + concat_all(texts),
    decreases texts.len(),
{
    if texts.len() == 0 {
        assert(pre.discarded() + concat_all(texts) =~= pre.discarded());
    } else {
        let mid = choose|mid: Console<T>|
            #[trigger] emitted(pre, texts[0], mid) && emitted_all(mid, texts.skip(1), post);
        lemma_fallback_safety(mid, texts.skip(1), post);
        assert((pre.discarded() + texts[0]) + concat_all(texts.skip(1)) =~= pre.discarded()
            + concat_all(texts));
    }
}

/// Emission order: a sequence of emit calls made while a sink stays
/// installed hands that sink each text whole and in call order — it ends
/// having received exactly the concatenation of the texts, so partial
/// strings from different calls never interleave — while the fallback and
/// every displaced sink receive nothing.
pub proof fn lemma_emission_order<T: ConsoleImpl>(
    pre: Console<T>,
    texts: Seq<Seq<char>>,
    post: Console<T>,
)
    requires
        pre.installed(),
        emitted_all(pre, texts, post),
    ensures
        post.installed(),
        post.installed_sink().received() == pre.installed_sink().received() + concat_all(texts),
        post.discarded() == pre.discarded(),
        post.retired_sinks() == pre.retired_sinks(),
    decreases texts.len(),
{
    if texts.len() == 0 {
        assert(pre.installed_sink().received() + concat_all(texts) =~= pre.installed_sink()
            .received());
    } else {
        let mid = choose|mid: Console<T>|
            #[trigger] emitted(pre, texts[0], mid) && emitted_all(mid, texts.skip(1), post);
        lemma_emission_order(mid, texts.skip(1), post);
        assert((pre.installed_sink().received() + texts[0]) + concat_all(texts.skip(1)) =~= pre
            .installed_sink().received() + concat_all(texts));
    }
}

/// Installation takes effect: after `sink` is installed, emitting `s`
/// hands exactly `s` to `sink` — it ends live, having received its prior
/// text followed by `s` — while the fallback and every previously
/// displaced sink receive nothing.
pub proof fn lemma_installation_takes_effect<T: ConsoleImpl>(
    c0: Console<T>,
    sink: T,
    c1: Console<T>,
    s: Seq<char>,
    c2: Console<T>,
)
    requires
        replaced(c0, sink, c1),
        emitted(c1, s, c2),
    ensures
        c2.installed(),
        c2.installed_sink().received() == sink.received() + s,
        !c2.installed_sink().torn_down(),
        c2.discarded() == c0.discarded(),
        c2.retired_sinks() == c1.retired_sinks(),
{
}

/// Displacement teardown: installing `s2` while `s1` is active runs the
/// teardown hook of `s1` exactly once — `s1` joins the retired sinks torn
/// down, with the text it had received left unchanged — and `s2` becomes
/// the active sink.
pub proof fn lemma_displacement_teardown<T: ConsoleImpl>(
    c0: Console<T>,
    s1: T,
    c1: Console<T>,
    s2: T,
    c2: Console<T>,
)
    requires
        replaced(c0, s1, c1),
        replaced(c1, s2, c2),
    ensures
        c2.installed(),
        c2.installed_sink() == s2,
        c2.retired_sinks().len() == c1.retired_sinks().len() + 1,
        c2.retired_sinks().last().torn_down(),
        c2.retired_sinks().last().received() == s1.received(),
        c2.discarded() == c0.discarded(),
{
}

/// The base printing function: forwards `s` to whichever sink is
/// currently active in `console`.
pub fn print<T: ConsoleImpl>(console: &mut Console<T>, s: &str)
    requires
        old(console).wf(),
    ensures
        final(console).wf(),
        emitted(*old(console), s@, *final(console)),
{
    console.emit(s);
}

} // verus!
