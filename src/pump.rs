//! The line pump: echoes each line of the server's output and queues the
//! events found in it for dispatch.
//!
//! The echo of a line depends on that line alone, so neither the queue nor
//! how its deliveries go can change what is echoed or in which order.
use vstd::prelude::*;
use std::collections::VecDeque;
use crate::classify::{classified, classify, event_view, DomainEvent, EventKind};
use crate::log::{joined, LogLevel, LogRecord};

verus! {

/// What is written back for a line: the line and a line break.
pub open spec fn echo_text(line: Seq<char>) -> Seq<char> {
    line.push('\n')
}

/// The events that a line adds to the queue: none or one.
pub open spec fn events_of_line(line: Seq<char>) -> Seq<(EventKind, Seq<char>)> {
    match classified(line) {
        Some(e) => seq![e],
        None => seq![],
    }
}

/// The events that lines add to the queue, in the lines' order.
pub open spec fn events_of_lines(lines: Seq<Seq<char>>) -> Seq<(EventKind, Seq<char>)>
    decreases lines.len(),
{
    if lines.len() == 0 {
        seq![]
    } else {
        events_of_lines(lines.drop_last()) + events_of_line(lines.last())
    }
}

pub open spec fn read_failure_text(detail: Seq<char>) -> Seq<char> {
    "failed to read a line: "@ + detail
}

/// What the reader of the output stream hands to the pump.
#[derive(Clone, Debug, PartialEq, Eq)]
pub enum PumpInput {
    Line(String),
    End,
    ReadFailed(String),
}

/// What the pump asks of the reader in return.
#[derive(Clone, Debug, PartialEq, Eq)]
pub enum PumpAction {
    /// Write this text to standard output and read on.
    Echo(String),
    /// The stream has ended: stop reading.
    Stop,
    /// Reading failed: log this record and stop reading.
    Fail(LogRecord),
}

/// The pump's state: the events that wait for dispatch, oldest first.
pub struct OutputPump {
    pending: VecDeque<DomainEvent>,
}

impl OutputPump {
    /// The events waiting for dispatch, oldest first.
    pub closed spec fn pending(&self) -> Seq<(EventKind, Seq<char>)> {
        self.pending@.map_values(|e: DomainEvent| (e.kind(), e.name()))
    }

    /// A pump with nothing queued.
    pub fn new() -> (r: OutputPump)
        ensures
            r.pending() == Seq::<(EventKind, Seq<char>)>::empty(),
    {
        let r = OutputPump { pending: VecDeque::new() };
        proof {
            assert(r.pending() =~= Seq::<(EventKind, Seq<char>)>::empty());
        }
        r
    }

    /// How many events wait for dispatch.
    pub fn pending_count(&self) -> (r: usize)
        ensures
            r == self.pending().len(),
    {
        self.pending.len()
    }

    /// Takes one line: returns its echo and queues its event, if any.
    pub fn feed(&mut self, line: &str) -> (echo: String)
        ensures
            echo@ == echo_text(line@),
            final(self).pending() == old(self).pending() + events_of_line(line@),
    {
        let ghost before = self.pending();
        let ev = classify(line);
        match ev {
            Some(e) => {
                self.pending.push_back(e);
            },
            None => {},
        }
        let echo = joined(line, "\n");
        proof {
            assert(self.pending() =~= before + events_of_line(line@));
            reveal_strlit("\n");
            assert(echo@ =~= echo_text(line@));
        }
        echo
    }

    /// Takes the oldest queued event, if there is one.
    pub fn next_dispatch(&mut self) -> (r: Option<DomainEvent>)
        ensures
            old(self).pending().len() == 0 ==> r is None && final(self).pending() == old(
                self,
            ).pending(),
            old(self).pending().len() > 0 ==> event_view(r) == Some(old(self).pending()[0])
                && final(self).pending() == old(self).pending().drop_first(),
    {
        let ghost before = self.pending();
        let r = self.pending.pop_front();
        proof {
            if before.len() > 0 {
                assert(self.pending() =~= before.drop_first());
            }
        }
        r
    }

    /// Takes lines in order: returns their echoes in the same order and
    /// queues their events in the same order, whatever was queued before.
    pub fn feed_all(&mut self, lines: &Vec<String>) -> (echoes: Vec<String>)
        ensures
            echoes@.len() == lines@.len(),
            forall|i: int| 0 <= i < lines@.len() ==> #[trigger] echoes@[i]@ == echo_text(lines@[i]@),
            final(self).pending() == old(self).pending() + events_of_lines(
                lines@.map_values(|l: String| l@),
            ),
    {
        let ghost before = self.pending();
        let ghost views = lines@.map_values(|l: String| l@);
        let mut echoes: Vec<String> = Vec::new();
        let mut i: usize = 0;
        while i < lines.len()
            invariant
                i <= lines@.len(),
                echoes@.len() == i,
                views == lines@.map_values(|l: String| l@),
                forall|k: int| 0 <= k < i ==> #[trigger] echoes@[k]@ == echo_text(lines@[k]@),
                self.pending() == before + events_of_lines(views.subrange(0, i as int)),
            decreases lines@.len() - i,
        {
            let echo = self.feed(lines[i].as_str());
            echoes.push(echo);
            proof {
                let prefix = views.subrange(0, i + 1);
                assert(prefix.drop_last() =~= views.subrange(0, i as int));
                assert(prefix.last() == lines@[i as int]@);
                vstd::seq_lib::lemma_concat_associative(
                    before,
                    events_of_lines(views.subrange(0, i as int)),
                    events_of_line(lines@[i as int]@),
                );
                assert(self.pending() =~= before + events_of_lines(prefix));
            }
            i = i + 1;
        }
        proof {
            assert(views.subrange(0, i as int) =~= views);
        }
        echoes
    }

    /// Takes what the reader read: a line is echoed and its event queued; the
    /// end of the stream stops the pump; a failed read stops it with an error
    /// record.
    pub fn on_input(&mut self, input: PumpInput) -> (r: PumpAction)
        ensures
            match input {
                PumpInput::Line(line) => {
                    &&& r matches PumpAction::Echo(echo) && echo@ == echo_text(line@)
                    &&& final(self).pending() == old(self).pending() + events_of_line(line@)
                },
                PumpInput::End => r is Stop && final(self).pending() == old(self).pending(),
                PumpInput::ReadFailed(detail) => {
                    &&& r matches PumpAction::Fail(rec) && rec.level == LogLevel::Error
                        && rec.text@ == read_failure_text(detail@)
                    &&& final(self).pending() == old(self).pending()
                },
            },
    {
        match input {
            PumpInput::Line(line) => PumpAction::Echo(self.feed(line.as_str())),
            PumpInput::End => PumpAction::Stop,
            PumpInput::ReadFailed(detail) => PumpAction::Fail(
                LogRecord {
                    level: LogLevel::Error,
                    text: joined("failed to read a line: ", detail.as_str()),
                },
            ),
        }
    }
}

} // verus!
