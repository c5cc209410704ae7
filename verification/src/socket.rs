//! The line-oriented channel to the robot.
use vstd::prelude::*;

verus! {

#[verifier::external_type_specification]
#[verifier::external_body]
pub struct ExIoError(std::io::Error);

/// One line that was handed to a channel, and whether the channel took it.
pub struct Written {
    pub line: Seq<char>,
    pub outcome: Result<(), std::io::Error>,
}

/// A blocking channel that carries one line of text each way. Whoever holds
/// a `Transport` is its only user: a reply belongs to the message written
/// last.
///
/// A channel that keeps track of what passes through it says so with
/// `kept`; of such a channel the clauses below hold, and what the library
/// says of the lines of a robot is said of a robot on such a channel.
pub trait Transport {
    /// Whether channels of this type keep track of what passes through
    /// them.
    open spec fn kept() -> bool {
        false
    }

    /// The lines handed to this channel, oldest first.
    open spec fn sent(&self) -> Seq<Written> {
        Seq::empty()
    }

    /// What this channel gave each time a line was asked of it, oldest
    /// first.
    open spec fn given(&self) -> Seq<Result<String, std::io::Error>> {
        Seq::empty()
    }

    /// Sends `msg` as one line.
    fn write(&mut self, msg: String) -> (r: Result<(), std::io::Error>)
        ensures
            Self::kept() ==> final(self).sent() == old(self).sent().push(
                Written { line: msg@, outcome: r },
            ),
            Self::kept() ==> final(self).given() == old(self).given(),
    ;

    /// Waits for one line and returns it without the line end and without
    /// surrounding blanks.
    fn read(&mut self) -> (r: Result<String, std::io::Error>)
        ensures
            Self::kept() ==> final(self).given() == old(self).given().push(r),
            Self::kept() ==> final(self).sent() == old(self).sent(),
    ;
}

/// [`std::io::Error::other`] with a fixed message: the error of a channel
/// that has nothing more to give. Nothing is said of the error.
#[verifier::external_body]
fn nothing_left() -> (e: std::io::Error) {
    std::io::Error::other("0 input bytes, diconnected")
}

/// What stands for the lines `lines`, each of which the channel took.
pub open spec fn all_taken(lines: Seq<String>) -> Seq<Written> {
    lines.map_values(|l: String| Written { line: l@, outcome: Ok(()) })
}

/// A channel in memory: it takes every line and keeps it, and it answers
/// from a list, one answer for each line asked of it, until the list is
/// used up. It stands for a robot where none is at hand.
pub struct Scripted {
    /// The answers, in the order in which they are given.
    pub replies: Vec<String>,
    /// How many of the answers are given.
    pub next: usize,
    /// The lines taken, oldest first.
    pub lines: Vec<String>,
    /// What was given each time a line was asked for, oldest first.
    pub given: Ghost<Seq<Result<String, std::io::Error>>>,
}

impl Scripted {
    /// A channel that will give `replies`, one after the other.
    pub fn new(replies: Vec<String>) -> (r: Scripted)
        ensures
            r.replies == replies,
            r.next == 0,
            r.lines@ == Seq::<String>::empty(),
            r.given@ == Seq::<Result<String, std::io::Error>>::empty(),
    {
        Scripted { replies, next: 0, lines: Vec::new(), given: Ghost(Seq::empty()) }
    }
}

impl Transport for Scripted {
    open spec fn kept() -> bool {
        true
    }

    open spec fn sent(&self) -> Seq<Written> {
        all_taken(self.lines@)
    }

    open spec fn given(&self) -> Seq<Result<String, std::io::Error>> {
        self.given@
    }

    /// Takes the line and keeps it.
    fn write(&mut self, msg: String) -> (r: Result<(), std::io::Error>)
        ensures
            r is Ok,
            final(self).lines@ == old(self).lines@.push(msg),
            final(self).replies == old(self).replies,
            final(self).next == old(self).next,
    {
        self.lines.push(msg);
        assert(all_taken(self.lines@) =~= all_taken(old(self).lines@).push(
            Written { line: msg@, outcome: Ok(()) },
        ));
        Ok(())
    }

    /// Gives the next answer of the list; an error once the list is used
    /// up.
    fn read(&mut self) -> (r: Result<String, std::io::Error>)
        ensures
            final(self).lines == old(self).lines,
            final(self).replies == old(self).replies,
            old(self).next < old(self).replies@.len() ==> {
                &&& r matches Ok(line)
                &&& line@ == old(self).replies@[old(self).next as int]@
                &&& final(self).next == old(self).next + 1
            },
            old(self).next >= old(self).replies@.len() ==> {
                &&& r is Err
                &&& final(self).next == old(self).next
            },
    {
        let r = if self.next < self.replies.len() {
            let line = self.replies[self.next].clone();
            self.next = self.next + 1;
            Ok(line)
        } else {
            Err(nothing_left())
        };
        self.given = Ghost(self.given@.push(r));
        r
    }
}

} // verus!
