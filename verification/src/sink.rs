use vstd::prelude::*;
use vstd::string::StrSliceExecFns;

verus! {

/// The capability that any concrete output device must satisfy.
///
/// A sink is modelled by two abstract quantities: `received()`, the
/// characters it has accepted so far in order, and `torn_down()`, whether
/// its teardown hook has run. Emitting appends to `received()`; the
/// teardown hook runs at most once, emits nothing, and after it the sink
/// accepts no further text.
pub trait ConsoleImpl: Sized {
    /// The characters this sink has accepted so far, in order.
    spec fn received(&self) -> Seq<char>;

    /// Whether the teardown hook has already run.
    spec fn torn_down(&self) -> bool;

    /// Pass a single character to the output channel.
    fn putc(&mut self, c: char)
        requires
            !old(self).torn_down(),
        ensures
            final(self).received() == old(self).received().push(c),
            !final(self).torn_down(),
    ;

    /// Pass a string to the output channel. A minimal implementation can
    /// define `putc` alone and leave this default, which emits each
    /// character in order; a sink is free to override it with a more
    /// efficient bulk transfer.
    fn puts(&mut self, s: &str)
        requires
            !old(self).torn_down(),
        ensures
            final(self).received() == old(self).received() + s@,
            !final(self).torn_down(),
    {
        let n = s.unicode_len();
        let mut i: usize = 0;
        while i < n
            invariant
                !self.torn_down(),
                n == s@.len(),
                i <= n,
                self.received() == old(self).received() + s@.take(i as int),
            decreases n - i,
        {
            let c = s.get_char(i);
            self.putc(c);
            i = i + 1;
            proof {
                assert(old(self).received() + s@.take(i as int) =~= (old(self).received()
                    + s@.take(i - 1)).push(s@[i - 1]));
            }
        }
        proof {
            assert(old(self).received() + s@.take(n as int) =~= old(self).received() + s@);
        }
    }

    /// Release the sink's resources. Runs exactly once, when the sink is
    /// displaced or the program ends, and must not emit text.
    fn teardown(&mut self)
        requires
            !old(self).torn_down(),
        ensures
            final(self).torn_down(),
            final(self).received() == old(self).received(),
    ;
}

/// The fallback sink: linked to no hardware, it silently discards all
/// text handed to it. Its state is purely ghost, so emitting through it
/// performs no work and allocates nothing at run time.
pub struct DefaultConsole {
    absorbed: Ghost<Seq<char>>,
    down: Ghost<bool>,
}

impl DefaultConsole {
    /// A fresh fallback sink that has discarded nothing.
    pub fn new() -> (r: DefaultConsole)
        ensures
            r.received() == Seq::<char>::empty(),
            !r.torn_down(),
    {
        DefaultConsole { absorbed: Ghost(Seq::empty()), down: Ghost(false) }
    }
}

impl ConsoleImpl for DefaultConsole {
    closed spec fn received(&self) -> Seq<char> {
        self.absorbed@
    }

    closed spec fn torn_down(&self) -> bool {
        self.down@
    }

    fn putc(&mut self, c: char) {
        self.absorbed = Ghost(self.absorbed@.push(c));
    }

    fn puts(&mut self, s: &str) {
        self.absorbed = Ghost(self.absorbed@ + s@);
    }

    fn teardown(&mut self) {
        self.down = Ghost(true);
    }
}

/// A sink whose destination is a memory buffer: every character handed to
/// it is recorded in order. It is a minimal implementation — it defines
/// only single-character emission and inherits the default `puts` — and
/// it owns no resource beyond the buffer, so its teardown hook only marks
/// the sink as retired.
pub struct BufferConsole {
    buf: Vec<char>,
    down: bool,
}

impl BufferConsole {
    /// A fresh buffer sink that has recorded nothing.
    pub fn new() -> (r: BufferConsole)
        ensures
            r.received() == Seq::<char>::empty(),
            !r.torn_down(),
    {
        BufferConsole { buf: Vec::new(), down: false }
    }

    /// The characters recorded so far, in the order they were received.
    pub fn contents(&self) -> (r: &Vec<char>)
        ensures
            r@ == self.received(),
    {
        &self.buf
    }

    /// Whether the teardown hook has run on this sink.
    pub fn taken_down(&self) -> (r: bool)
        ensures
            r == self.torn_down(),
    {
        self.down
    }
}

impl ConsoleImpl for BufferConsole {
    closed spec fn received(&self) -> Seq<char> {
        self.buf@
    }

    closed spec fn torn_down(&self) -> bool {
        self.down
    }

    fn putc(&mut self, c: char) {
        self.buf.push(c);
    }

    fn teardown(&mut self) {
        self.down = true;
    }
}

} // verus!
