//! A race and the lap times recorded for it.

use vstd::prelude::*;
use vstd::string::StringExecFns;
use crate::text::{decimal, decimal_string, natural_string};

verus! {

/// A race by name, with the lap times recorded so far, in seconds.
#[derive(Debug)]
pub struct Race {
    pub name: String,
    pub laps: Vec<i32>,
}

/// The sum of a sequence of lap times.
pub open spec fn total_time(laps: Seq<i32>) -> int
    decreases laps.len(),
{
    if laps.len() == 0 {
        0
    } else {
        total_time(laps.drop_last()) + laps.last()
    }
}

/// Whether the lap times can be summed one after the other in `i32`
/// arithmetic.
pub open spec fn summable(laps: Seq<i32>) -> bool {
    forall|k: int| 0 <= k <= laps.len() ==> i32::MIN <= #[trigger] total_time(laps.take(k)) <= i32::MAX
}

/// The line that heads the report on a race.
pub open spec fn heading(name: Seq<char>, laps: nat) -> Seq<char> {
    "Recorded "@ + decimal(laps as int) + " laps for "@ + name
}

/// The line that reports one lap.
pub open spec fn lap_line(index: nat, lap: i32) -> Seq<char> {
    "Lap "@ + decimal(index as int) + ": "@ + decimal(lap as int) + " sec"@
}

/// The line that closes a race.
pub open spec fn closing(name: Seq<char>, total: int) -> Seq<char> {
    "Race "@ + name + " is finished, total lap time: "@ + decimal(total)
}

impl Race {
    /// A race without laps.
    pub fn new(name: &str) -> (race: Race)
        ensures
            race.name@ == name@,
            race.laps@ == Seq::<i32>::empty(),
    {
        Race { name: name.to_owned(), laps: Vec::new() }
    }

    /// Records one more lap.
    pub fn add_lap(&mut self, lap: i32)
        ensures
            final(self).name == old(self).name,
            final(self).laps@ == old(self).laps@.push(lap),
    {
        self.laps.push(lap);
    }

    /// The report on the laps recorded so far: a heading, then one line for
    /// each lap in the order of recording, numbered from zero.
    pub fn report(&self) -> (lines: Vec<String>)
        ensures
            lines@.len() == self.laps@.len() + 1,
            lines@[0]@ == heading(self.name@, self.laps@.len()),
            forall|i: int|
                0 <= i < self.laps@.len() ==> (#[trigger] lines@[i + 1])@ == lap_line(
                    i as nat,
                    self.laps@[i],
                ),
    {
        let count = self.laps.len();
        let mut first = "Recorded ".to_owned();
        first.append(natural_string(count as u64).as_str());
        first.append(" laps for ");
        first.append(self.name.as_str());
        let mut lines: Vec<String> = Vec::new();
        lines.push(first);
        let mut i: usize = 0;
        while i < count
            invariant
                count == self.laps@.len(),
                i <= count,
                lines@.len() == i + 1,
                lines@[0]@ == heading(self.name@, self.laps@.len()),
                forall|k: int|
                    0 <= k < i ==> (#[trigger] lines@[k + 1])@ == lap_line(k as nat, self.laps@[k]),
            decreases count - i,
        {
            let mut line = "Lap ".to_owned();
            line.append(natural_string(i as u64).as_str());
            line.append(": ");
            line.append(decimal_string(self.laps[i] as i64).as_str());
            line.append(" sec");
            lines.push(line);
            i += 1;
        }
        lines
    }

    /// The sum of the lap times.
    pub fn total(&self) -> (sum: i32)
        requires
            summable(self.laps@),
        ensures
            sum == total_time(self.laps@),
    {
        let mut sum: i32 = 0;
        let mut i: usize = 0;
        while i < self.laps.len()
            invariant
                i <= self.laps@.len(),
                summable(self.laps@),
                sum == total_time(self.laps@.take(i as int)),
            decreases self.laps@.len() - i,
        {
            proof {
                let next = self.laps@.take(i + 1);
                assert(next.drop_last() =~= self.laps@.take(i as int));
                assert(next.last() == self.laps@[i as int]);
                assert(i32::MIN <= total_time(next) <= i32::MAX);
            }
            sum = sum + self.laps[i];
            i += 1;
        }
        proof {
            assert(self.laps@.take(self.laps@.len() as int) =~= self.laps@);
        }
        sum
    }

    /// Ends the race and gives its closing line, which names the race and
    /// the sum of its lap times.
    pub fn finish(self) -> (line: String)
        requires
            summable(self.laps@),
        ensures
            line@ == closing(self.name@, total_time(self.laps@)),
    {
        let total = self.total();
        let mut line = "Race ".to_owned();
        line.append(self.name.as_str());
        line.append(" is finished, total lap time: ");
        line.append(decimal_string(total as i64).as_str());
        line
    }
}

} // verus!
