use vstd::prelude::*;

verus! {

/// The physical channels that feed an estimation run.
#[derive(Debug, Clone, Copy, PartialEq, Eq, Structural)]
pub enum Channel {
    Time,
    Wheel,
    Gyro,
    Position,
    Angle,
}

pub open spec fn channel_name(c: Channel) -> &'static str {
    match c {
        Channel::Time => "time",
        Channel::Wheel => "wheel",
        Channel::Gyro => "gyro",
        Channel::Position => "position",
        Channel::Angle => "angle",
    }
}

impl Channel {
    /// The name under which the channel is reported.
    pub fn name(&self) -> (r: &'static str)
        ensures
            r == channel_name(*self),
    {
        match self {
            Channel::Time => "time",
            Channel::Wheel => "wheel",
            Channel::Gyro => "gyro",
            Channel::Position => "position",
            Channel::Angle => "angle",
        }
    }
}

/// Number of rows observed on one channel.
#[derive(Debug, Clone, Copy, PartialEq, Eq, Structural)]
pub struct ChannelCount {
    pub channel: Channel,
    pub count: usize,
}

/// The channels of one run did not produce the same number of rows.
/// Holds the count of every channel, in the order the channels were given.
#[derive(Debug)]
pub struct AlignmentError {
    pub counts: Vec<ChannelCount>,
}

/// A positional access past the end of a sequence of records.
#[derive(Debug, Clone, Copy, PartialEq, Eq, Structural)]
pub struct OutOfRange {
    pub index: usize,
    pub len: usize,
}

/// One synchronized odometry step: time, wheel speed and gyro rate.
#[derive(Debug, Clone, Copy)]
pub struct Measurement<T> {
    pub time: T,
    pub wheel: T,
    pub gyro: T,
}

/// The aligned odometry inputs of a run, one record per step.
#[derive(Debug)]
pub struct Measurements<T> {
    data: Vec<Measurement<T>>,
}

/// A planar position.
#[derive(Debug, Clone, Copy)]
pub struct Position<T> {
    pub x: T,
    pub y: T,
}

/// One synchronized pose step: time, position and heading angle.
#[derive(Debug, Clone, Copy)]
pub struct Pose<T> {
    pub time: T,
    pub position: Position<T>,
    pub angle: T,
}

/// The aligned poses of a run, one record per step.
#[derive(Debug)]
pub struct Poses<T> {
    data: Vec<Pose<T>>,
}

/// The reported count of a channel that produced `n` rows.
pub open spec fn count_of(channel: Channel, n: nat) -> ChannelCount {
    ChannelCount { channel, count: n as usize }
}

/// Record `i` joins row `i` of every channel; the time comes from the time channel.
pub open spec fn aligned_measurements<T>(times: Seq<T>, wheels: Seq<T>, gyros: Seq<T>) -> Seq<
    Measurement<T>,
> {
    Seq::new(times.len(), |i: int| Measurement { time: times[i], wheel: wheels[i], gyro: gyros[i] })
}

/// Pose `i` joins row `i` of the time, position and angle channels.
pub open spec fn aligned_poses<T>(times: Seq<T>, positions: Seq<Position<T>>, angles: Seq<T>) -> Seq<
    Pose<T>,
> {
    Seq::new(
        times.len(),
        |i: int| Pose { time: times[i], position: positions[i], angle: angles[i] },
    )
}

impl<T> View for Measurements<T> {
    type V = Seq<Measurement<T>>;

    closed spec fn view(&self) -> Seq<Measurement<T>> {
        self.data@
    }
}

impl<T> View for Poses<T> {
    type V = Seq<Pose<T>>;

    closed spec fn view(&self) -> Seq<Pose<T>> {
        self.data@
    }
}

/// The text of a decimal digit `d < 10`.
pub open spec fn digit_text(d: nat) -> &'static str {
    if d == 0 {
        "0"
    } else if d == 1 {
        "1"
    } else if d == 2 {
        "2"
    } else if d == 3 {
        "3"
    } else if d == 4 {
        "4"
    } else if d == 5 {
        "5"
    } else if d == 6 {
        "6"
    } else if d == 7 {
        "7"
    } else if d == 8 {
        "8"
    } else {
        "9"
    }
}

/// `n` written in decimal, without leading zeros.
pub open spec fn decimal_text(n: nat) -> Seq<char>
    decreases n,
{
    if n < 10 {
        digit_text(n)@
    } else {
        decimal_text(n / 10) + digit_text(n % 10)@
    }
}

/// `name=count` for one channel.
pub open spec fn count_text(c: ChannelCount) -> Seq<char> {
    channel_name(c.channel)@ + "="@ + decimal_text(c.count as nat)
}

/// The entries of `counts`, in order, separated by `, `.
pub open spec fn counts_text(counts: Seq<ChannelCount>) -> Seq<char>
    decreases counts.len(),
{
    if counts.len() == 0 {
        Seq::empty()
    } else if counts.len() == 1 {
        count_text(counts[0])
    } else {
        counts_text(counts.drop_last()) + ", "@ + count_text(counts.last())
    }
}

fn digit_str(d: usize) -> (r: &'static str)
    requires
        d < 10,
    ensures
        r == digit_text(d as nat),
{
    if d == 0 {
        "0"
    } else if d == 1 {
        "1"
    } else if d == 2 {
        "2"
    } else if d == 3 {
        "3"
    } else if d == 4 {
        "4"
    } else if d == 5 {
        "5"
    } else if d == 6 {
        "6"
    } else if d == 7 {
        "7"
    } else if d == 8 {
        "8"
    } else {
        "9"
    }
}

fn append_decimal(s: &mut String, n: usize)
    ensures
        final(s)@ == old(s)@ + decimal_text(n as nat),
    decreases n,
{
    if n >= 10 {
        append_decimal(s, n / 10);
    }
    s.append(digit_str(n % 10));
    proof {
        if n >= 10 {
            assert(old(s)@ + decimal_text(n as nat) =~= old(s)@ + decimal_text((n / 10) as nat)
                + digit_text((n % 10) as nat)@);
        }
    }
}

impl AlignmentError {
    /// The counts as `name=count` entries separated by `, `,
    /// for instance `time=3, wheel=3, gyro=2`.
    pub fn message(&self) -> (r: String)
        ensures
            r@ == counts_text(self.counts@),
    {
        let mut s = String::new();
        let mut i: usize = 0;
        while i < self.counts.len()
            invariant
                i <= self.counts.len(),
                s@ == counts_text(self.counts@.take(i as int)),
            decreases self.counts.len() - i,
        {
            let ghost before = s@;
            let c = self.counts[i];
            if i > 0 {
                s.append(", ");
            }
            s.append(c.channel.name());
            s.append("=");
            append_decimal(&mut s, c.count);
            proof {
                let next = self.counts@.take(i + 1);
                assert(next.drop_last() =~= self.counts@.take(i as int));
                if i == 0 {
                    assert(s@ =~= count_text(c));
                } else {
                    assert(s@ =~= before + ", "@ + count_text(c));
                }
            }
            i = i + 1;
        }
        assert(self.counts@.take(i as int) =~= self.counts@);
        s
    }
}

fn mismatch(a: ChannelCount, b: ChannelCount, c: ChannelCount) -> (r: AlignmentError)
    ensures
        r.counts@ == seq![a, b, c],
{
    let mut counts: Vec<ChannelCount> = Vec::new();
    counts.push(a);
    counts.push(b);
    counts.push(c);
    AlignmentError { counts }
}

impl<T: Copy> Measurements<T> {
    /// Joins the time, wheel-speed and gyro-rate columns row by row.
    /// Fails, reporting all three row counts, unless the columns have one length.
    pub fn load(times: &Vec<T>, wheels: &Vec<T>, gyros: &Vec<T>) -> (r: Result<
        Measurements<T>,
        AlignmentError,
    >)
        ensures
            r is Ok <==> (times.len() == wheels.len() && times.len() == gyros.len()),
            r matches Ok(m) ==> m@ == aligned_measurements(times@, wheels@, gyros@),
            r matches Ok(m) ==> m@.len() == times.len(),
            r matches Ok(m) ==> forall|i: int|
                0 <= i < times.len() ==> #[trigger] m@[i] == (Measurement {
                    time: times@[i],
                    wheel: wheels@[i],
                    gyro: gyros@[i],
                }),
            r matches Err(e) ==> e.counts@ == seq![
                count_of(Channel::Time, times.len() as nat),
                count_of(Channel::Wheel, wheels.len() as nat),
                count_of(Channel::Gyro, gyros.len() as nat),
            ],
    {
        let length: usize = times.len();
        if length != wheels.len() || length != gyros.len() {
            return Err(
                mismatch(
                    ChannelCount { channel: Channel::Time, count: length },
                    ChannelCount { channel: Channel::Wheel, count: wheels.len() },
                    ChannelCount { channel: Channel::Gyro, count: gyros.len() },
                ),
            );
        }
        let mut data: Vec<Measurement<T>> = Vec::with_capacity(length);
        let mut i: usize = 0;
        while i < length
            invariant
                length == times.len(),
                length == wheels.len(),
                length == gyros.len(),
                i <= length,
                data@ =~= aligned_measurements(times@, wheels@, gyros@).take(i as int),
            decreases length - i,
        {
            data.push(Measurement { time: times[i], wheel: wheels[i], gyro: gyros[i] });
            i = i + 1;
        }
        assert(data@ =~= aligned_measurements(times@, wheels@, gyros@));
        Ok(Measurements { data })
    }

    /// Number of aligned records.
    pub fn len(&self) -> (r: usize)
        ensures
            r == self@.len(),
    {
        self.data.len()
    }

    /// The record at `index`, or `OutOfRange` past the end.
    pub fn get(&self, index: usize) -> (r: Result<Measurement<T>, OutOfRange>)
        ensures
            index < self@.len() ==> r == Ok::<Measurement<T>, OutOfRange>(self@[index as int]),
            index >= self@.len() ==> r == Err::<Measurement<T>, OutOfRange>(
                OutOfRange { index, len: self@.len() as usize },
            ),
    {
        if index < self.data.len() {
            Ok(self.data[index])
        } else {
            Err(OutOfRange { index, len: self.data.len() })
        }
    }
}

impl<T: Copy> Poses<T> {
    /// Joins the time, position and angle columns row by row.
    /// Fails, reporting all three row counts, unless the columns have one length.
    pub fn load(times: &Vec<T>, positions: &Vec<Position<T>>, angles: &Vec<T>) -> (r: Result<
        Poses<T>,
        AlignmentError,
    >)
        ensures
            r is Ok <==> (times.len() == positions.len() && times.len() == angles.len()),
            r matches Ok(p) ==> p@ == aligned_poses(times@, positions@, angles@),
            r matches Ok(p) ==> p@.len() == times.len(),
            r matches Ok(p) ==> forall|i: int|
                0 <= i < times.len() ==> #[trigger] p@[i] == (Pose {
                    time: times@[i],
                    position: positions@[i],
                    angle: angles@[i],
                }),
            r matches Err(e) ==> e.counts@ == seq![
                count_of(Channel::Time, times.len() as nat),
                count_of(Channel::Position, positions.len() as nat),
                count_of(Channel::Angle, angles.len() as nat),
            ],
    {
        let length: usize = times.len();
        if length != positions.len() || length != angles.len() {
            return Err(
                mismatch(
                    ChannelCount { channel: Channel::Time, count: length },
                    ChannelCount { channel: Channel::Position, count: positions.len() },
                    ChannelCount { channel: Channel::Angle, count: angles.len() },
                ),
            );
        }
        let mut data: Vec<Pose<T>> = Vec::with_capacity(length);
        let mut i: usize = 0;
        while i < length
            invariant
                length == times.len(),
                length == positions.len(),
                length == angles.len(),
                i <= length,
                data@ =~= aligned_poses(times@, positions@, angles@).take(i as int),
            decreases length - i,
        {
            data.push(Pose { time: times[i], position: positions[i], angle: angles[i] });
            i = i + 1;
        }
        assert(data@ =~= aligned_poses(times@, positions@, angles@));
        Ok(Poses { data })
    }

    /// Number of aligned records.
    pub fn len(&self) -> (r: usize)
        ensures
            r == self@.len(),
    {
        self.data.len()
    }

    /// The record at `index`, or `OutOfRange` past the end.
    pub fn get(&self, index: usize) -> (r: Result<Pose<T>, OutOfRange>)
        ensures
            index < self@.len() ==> r == Ok::<Pose<T>, OutOfRange>(self@[index as int]),
            index >= self@.len() ==> r == Err::<Pose<T>, OutOfRange>(
                OutOfRange { index, len: self@.len() as usize },
            ),
    {
        if index < self.data.len() {
            Ok(self.data[index])
        } else {
            Err(OutOfRange { index, len: self.data.len() })
        }
    }
}

} // verus!
