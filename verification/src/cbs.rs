use crate::document::get;
use crate::document::lookup;
use crate::document::Node;
use crate::error::TsnError;
use crate::tas::Queue;
use crate::tcmap::dense_map;
use crate::tcmap::first_seen;
use crate::tcmap::is_priority;
use crate::tcmap::lemma_first_seen_len;
use crate::tcmap::see;
use crate::tcmap::tc_map_of;
use crate::tcmap::PRIORITIES;
use crate::text::to_chars;
use crate::units::link_speed;
use crate::units::link_speed_of;
use crate::units::reading;
use crate::units::report_view;
use crate::units::to_bits;
use crate::units::to_bps;
use crate::units::Quantity;
use vstd::prelude::*;

verus! {

/// One stream of a credit-based shaper.
#[derive(Clone, Copy, Debug, PartialEq, Eq, Structural)]
pub struct CbsChild {
    pub prio: i64,
    /// Bits of the stream's largest frame.
    pub max_frame: i64,
    /// Bits per second that the stream may use.
    pub bandwidth: i64,
    /// The stream's class: `a` or `b`.
    pub class: char,
}

/// The credits of one class. The slopes are in kilobits per second.
#[derive(Clone, Copy, Debug, PartialEq, Eq, Structural)]
pub struct CbsCredit {
    pub sendslope: i64,
    pub idleslope: i64,
    pub hicredit: i64,
    pub locredit: i64,
}

/// The credit-based shaper of an interface.
#[derive(Clone, Debug, PartialEq, Eq)]
pub struct CbsConfig {
    /// The traffic class of each of the sixteen priorities.
    pub tc_map: Vec<i64>,
    pub num_tc: i64,
    pub queues: Vec<Queue>,
    /// The credits of class `a`, which the first child qdisc gets.
    pub credit_a: CbsCredit,
    /// The credits of class `b`, which the second child qdisc gets.
    pub credit_b: CbsCredit,
    /// The streams, in the document's order.
    pub streams: Vec<CbsChild>,
    /// Bits per second of the link.
    pub linkspeed: i64,
}

/// The bandwidth of the streams of a class, summed.
pub open spec fn idle_slope(streams: Seq<CbsChild>, class: char) -> int
    decreases streams.len(),
{
    if streams.len() == 0 {
        0
    } else {
        idle_slope(streams.drop_last(), class) + if streams.last().class == class {
            streams.last().bandwidth as int
        } else {
            0
        }
    }
}

/// The largest frames of the streams of a class, summed.
pub open spec fn max_frame(streams: Seq<CbsChild>, class: char) -> int
    decreases streams.len(),
{
    if streams.len() == 0 {
        0
    } else {
        max_frame(streams.drop_last(), class) + if streams.last().class == class {
            streams.last().max_frame as int
        } else {
            0
        }
    }
}

/// The quotient of `n` by a positive `d`, rounded up.
pub open spec fn ceil_div(n: int, d: int) -> int {
    if n > 0 {
        (n - 1) / d + 1
    } else {
        -((-n) / d)
    }
}

/// The quotient of `n` by a positive `d`, rounded down.
pub open spec fn floor_div(n: int, d: int) -> int {
    if n >= 0 {
        n / d
    } else {
        -((-n - 1) / d) - 1
    }
}

/// The quotient of `n` by `d`, rounded up, for a `d` of either sign.
pub open spec fn ceil_ratio(n: int, d: int) -> int {
    if d > 0 {
        ceil_div(n, d)
    } else {
        ceil_div(-n, -d)
    }
}

/// `ceil_div` is the least whole number that is no less than the quotient.
pub proof fn lemma_ceil_div(n: int, d: int)
    requires
        d > 0,
    ensures
        ceil_div(n, d) * d >= n,
        (ceil_div(n, d) - 1) * d < n,
{
    if n > 0 {
        let q = (n - 1) / d;
        assert(q * d <= n - 1 < q * d + d) by (nonlinear_arith)
            requires
                q == (n - 1) / d,
                d > 0,
                n - 1 >= 0,
        ;
        assert((q + 1) * d == q * d + d) by (nonlinear_arith);
        assert((q + 1 - 1) * d == q * d);
    } else {
        let q = (-n) / d;
        assert(q * d <= -n < q * d + d) by (nonlinear_arith)
            requires
                q == (-n) / d,
                d > 0,
                -n >= 0,
        ;
        assert((-q) * d == -(q * d)) by (nonlinear_arith);
        assert((-q - 1) * d == -(q * d) - d) by (nonlinear_arith);
    }
}

/// `floor_div` is the greatest whole number that is no more than the
/// quotient.
pub proof fn lemma_floor_div(n: int, d: int)
    requires
        d > 0,
    ensures
        floor_div(n, d) * d <= n,
        (floor_div(n, d) + 1) * d > n,
{
    if n >= 0 {
        let q = n / d;
        assert(q * d <= n < q * d + d) by (nonlinear_arith)
            requires
                q == n / d,
                d > 0,
                n >= 0,
        ;
        assert((q + 1) * d == q * d + d) by (nonlinear_arith);
    } else {
        let q = (-n - 1) / d;
        assert(q * d <= -n - 1 < q * d + d) by (nonlinear_arith)
            requires
                q == (-n - 1) / d,
                d > 0,
                -n - 1 >= 0,
        ;
        assert((-q - 1) * d == -(q * d) - d) by (nonlinear_arith);
        assert((-q - 1 + 1) * d == -(q * d)) by (nonlinear_arith);
    }
}

/// Whether a value fits in 128 bits and so does its negation.
pub open spec fn fits128(x: int) -> bool {
    -i128::MAX <= x <= i128::MAX
}

/// Whether a value fits in 64 bits.
pub open spec fn fits64(x: int) -> bool {
    i64::MIN <= x <= i64::MAX
}

/// The sums that the credits are derived from.
pub struct Load {
    pub idle_a: int,
    pub frame_a: int,
    pub idle_b: int,
    pub frame_b: int,
    pub link: int,
}

impl Load {
    /// The numerator of the high credit of class `b` over the denominator
    /// `self.spare()`.
    pub open spec fn hi_b_over(self) -> int {
        self.idle_b * (self.frame_b * self.link + self.frame_a * (self.link - self.idle_a))
    }

    /// The denominator of the high credit of class `b`: what class `a` leaves
    /// of the link, times the link.
    pub open spec fn spare(self) -> int {
        (self.link - self.idle_a) * self.link
    }

    /// Whether the credits can be worked out: the link has a speed, class `a`
    /// leaves some of it, and every sum and product on the way fits in the
    /// machine's numbers.
    pub open spec fn workable(self) -> bool {
        &&& self.link > 0
        &&& self.link != self.idle_a
        &&& fits64(self.idle_a)
        &&& fits64(self.frame_a)
        &&& fits64(self.idle_b)
        &&& fits64(self.frame_b)
        &&& fits128(self.idle_a * self.frame_a)
        &&& fits128((self.idle_a - self.link) * self.frame_a)
        &&& fits128((self.idle_b - self.link) * self.frame_b)
        &&& fits128(self.frame_b * self.link)
        &&& fits128(self.frame_a * (self.link - self.idle_a))
        &&& fits128(self.frame_b * self.link + self.frame_a * (self.link - self.idle_a))
        &&& fits128(self.hi_b_over())
        &&& fits128(self.spare())
    }

    /// The high credit of class `a`: its idle slope times its frames over the
    /// link's speed, rounded up.
    pub open spec fn hi_a(self) -> int {
        ceil_div(self.idle_a * self.frame_a, self.link)
    }

    /// The low credit of class `a`: its send slope times its frames over the
    /// link's speed, rounded up.
    pub open spec fn lo_a(self) -> int {
        ceil_div((self.idle_a - self.link) * self.frame_a, self.link)
    }

    /// The high credit of class `b`: its idle slope times the sum of its
    /// frames over what class `a` leaves of the link and the frames of class
    /// `a` over the link's speed, rounded up.
    pub open spec fn hi_b(self) -> int {
        ceil_ratio(self.hi_b_over(), self.spare())
    }

    /// The low credit of class `b`: its send slope times its frames over the
    /// link's speed, rounded up.
    pub open spec fn lo_b(self) -> int {
        ceil_div((self.idle_b - self.link) * self.frame_b, self.link)
    }

    /// The credits of the two classes, where they can be worked out and fit
    /// in 64 bits.
    pub open spec fn credits(self) -> Option<(CbsCredit, CbsCredit)> {
        if self.workable() && fits64(self.hi_a()) && fits64(self.lo_a()) && fits64(self.hi_b())
            && fits64(self.lo_b()) {
            Some(
                (
                    CbsCredit {
                        sendslope: floor_div(self.idle_a - self.link, 1000) as i64,
                        idleslope: floor_div(self.idle_a, 1000) as i64,
                        hicredit: self.hi_a() as i64,
                        locredit: self.lo_a() as i64,
                    },
                    CbsCredit {
                        sendslope: floor_div(self.idle_b - self.link, 1000) as i64,
                        idleslope: floor_div(self.idle_b, 1000) as i64,
                        hicredit: self.hi_b() as i64,
                        locredit: self.lo_b() as i64,
                    },
                ),
            )
        } else {
            None
        }
    }
}

/// The load that streams put on a link.
pub open spec fn load_of(streams: Seq<CbsChild>, linkspeed: i64) -> Load {
    Load {
        idle_a: idle_slope(streams, 'a'),
        frame_a: max_frame(streams, 'a'),
        idle_b: idle_slope(streams, 'b'),
        frame_b: max_frame(streams, 'b'),
        link: linkspeed as int,
    }
}

fn mul128(a: i128, b: i128) -> (r: Option<i128>)
    ensures
        match r {
            Some(v) => v == a * b && fits128(a * b),
            None => !fits128(a * b),
        },
{
    match a.checked_mul(b) {
        Some(v) => if v == i128::MIN {
            None
        } else {
            Some(v)
        },
        None => None,
    }
}

fn add128(a: i128, b: i128) -> (r: Option<i128>)
    ensures
        match r {
            Some(v) => v == a + b && fits128(a + b),
            None => !fits128(a + b),
        },
{
    match a.checked_add(b) {
        Some(v) => if v == i128::MIN {
            None
        } else {
            Some(v)
        },
        None => None,
    }
}

fn ceil_quotient(n: i128, d: i128) -> (q: i128)
    requires
        d > 0,
        fits128(n as int),
    ensures
        q == ceil_div(n as int, d as int),
        fits128(q as int),
{
    if n > 0 {
        (n - 1) / d + 1
    } else {
        -((-n) / d)
    }
}

fn floor_kilo(n: i128) -> (q: i64)
    requires
        -0x1_0000_0000_0000_0000 <= n <= 0x1_0000_0000_0000_0000,
    ensures
        q == floor_div(n as int, 1000),
{
    if n >= 0 {
        (n / 1000) as i64
    } else {
        (-((-n - 1) / 1000) - 1) as i64
    }
}

fn narrow(v: i128) -> (r: Option<i64>)
    ensures
        match r {
            Some(x) => x == v,
            None => !fits64(v as int),
        },
{
    if v < i64::MIN as i128 || v > i64::MAX as i128 {
        None
    } else {
        Some(v as i64)
    }
}

fn sum_class(streams: &Vec<CbsChild>, class: char) -> (r: (i128, i128))
    ensures
        r.0 == idle_slope(streams@, class),
        r.1 == max_frame(streams@, class),
{
    let n: usize = streams.len();
    let mut idle: i128 = 0;
    let mut frame: i128 = 0;
    let mut i: usize = 0;
    while i < n
        invariant
            i <= n,
            n == streams@.len(),
            idle == idle_slope(streams@.take(i as int), class),
            frame == max_frame(streams@.take(i as int), class),
            -i * 0x8000_0000_0000_0000 <= idle <= i * 0x8000_0000_0000_0000,
            -i * 0x8000_0000_0000_0000 <= frame <= i * 0x8000_0000_0000_0000,
        decreases n - i,
    {
        assert(streams@.take(i + 1).drop_last() =~= streams@.take(i as int));
        if streams[i].class == class {
            idle = idle + streams[i].bandwidth as i128;
            frame = frame + streams[i].max_frame as i128;
        }
        i = i + 1;
    }
    assert(streams@.take(n as int) =~= streams@);
    (idle, frame)
}

/// Works out the credits of the two classes from the streams and the link's
/// speed. Where the credits cannot be worked out, `InvalidConfig` is
/// returned: the link has no speed, class `a` leaves nothing of it, or a
/// value on the way does not fit.
pub fn calc_credits(streams: &Vec<CbsChild>, linkspeed: i64) -> (r: Result<
    (CbsCredit, CbsCredit),
    TsnError,
>)
    ensures
        match r {
            Ok(c) => load_of(streams@, linkspeed).credits() == Some(c),
            Err(e) => load_of(streams@, linkspeed).credits() is None && e
                == TsnError::InvalidConfig,
        },
{
    let ghost load = load_of(streams@, linkspeed);
    let bad: Result<(CbsCredit, CbsCredit), TsnError> = Err(TsnError::InvalidConfig);
    let (ia, fa) = sum_class(streams, 'a');
    let (ib, fb) = sum_class(streams, 'b');
    let l: i128 = linkspeed as i128;
    if l <= 0 || l == ia {
        return bad;
    }
    if narrow(ia).is_none() || narrow(fa).is_none() || narrow(ib).is_none() || narrow(
        fb,
    ).is_none() {
        return bad;
    }
    let p1 = match mul128(ia, fa) {
        Some(v) => v,
        None => {
            return bad;
        },
    };
    let p2 = match mul128(ia - l, fa) {
        Some(v) => v,
        None => {
            return bad;
        },
    };
    let p3 = match mul128(ib - l, fb) {
        Some(v) => v,
        None => {
            return bad;
        },
    };
    let t1 = match mul128(fb, l) {
        Some(v) => v,
        None => {
            return bad;
        },
    };
    let t2 = match mul128(fa, l - ia) {
        Some(v) => v,
        None => {
            return bad;
        },
    };
    let t3 = match add128(t1, t2) {
        Some(v) => v,
        None => {
            return bad;
        },
    };
    let over = match mul128(ib, t3) {
        Some(v) => v,
        None => {
            return bad;
        },
    };
    let spare = match mul128(l - ia, l) {
        Some(v) => v,
        None => {
            return bad;
        },
    };
    assert(load.workable());
    assert(spare != 0) by (nonlinear_arith)
        requires
            spare == (l - ia) * l,
            l > 0,
            l != ia,
    ;
    let hi_a: i128 = ceil_quotient(p1, l);
    let lo_a: i128 = ceil_quotient(p2, l);
    let hi_b: i128 = if spare > 0 {
        ceil_quotient(over, spare)
    } else {
        ceil_quotient(-over, -spare)
    };
    let lo_b: i128 = ceil_quotient(p3, l);
    match (narrow(hi_a), narrow(lo_a), narrow(hi_b), narrow(lo_b)) {
        (Some(ha), Some(la), Some(hb), Some(lb)) => Ok(
            (
                CbsCredit {
                    sendslope: floor_kilo(ia - l),
                    idleslope: floor_kilo(ia),
                    hicredit: ha,
                    locredit: la,
                },
                CbsCredit {
                    sendslope: floor_kilo(ib - l),
                    idleslope: floor_kilo(ib),
                    hicredit: hb,
                    locredit: lb,
                },
            ),
        ),
        _ => bad,
    }
}

/// The class that a text names: `a` or `b`.
pub open spec fn class_named(t: Seq<char>) -> Option<char> {
    if t.len() == 1 && (t[0] == 'a' || t[0] == 'b') {
        Some(t[0])
    } else {
        None
    }
}

/// The stream that an entry of the shaper's mapping gives: the key is a
/// priority, the value a mapping with a size `max_frame`, a bandwidth
/// `bandwidth` and a class `class`.
pub open spec fn child_of(key: Node, value: Node) -> Option<CbsChild> {
    match (key, value) {
        (Node::Int(p), Node::Dict(fs)) => match (
            lookup(fs@, "max_frame"@, 0),
            lookup(fs@, "bandwidth"@, 0),
            lookup(fs@, "class"@, 0),
        ) {
            (Some(m), Some(b), Some(Node::Text(c))) => match (
                reading(Quantity::Size, m),
                reading(Quantity::Rate, b),
                class_named(c@),
            ) {
                (Some(max_frame), Some(bandwidth), Some(class)) => if is_priority(p) {
                    Some(CbsChild { prio: p, max_frame, bandwidth, class })
                } else {
                    None
                },
                _ => None,
            },
            _ => None,
        },
        _ => None,
    }
}

/// The streams that the entries of the shaper's mapping give, in order.
pub open spec fn children_of(es: Seq<(Node, Node)>) -> Option<Seq<CbsChild>>
    decreases es.len(),
{
    if es.len() == 0 {
        Some(Seq::empty())
    } else {
        match (children_of(es.drop_last()), child_of(es.last().0, es.last().1)) {
            (Some(r), Some(c)) => Some(r.push(c)),
            _ => None,
        }
    }
}

/// The streams that a node gives as a credit-based shaper.
pub open spec fn cbs_of(config: Node) -> Option<Seq<CbsChild>> {
    match config {
        Node::Dict(es) => children_of(es@),
        _ => None,
    }
}

/// The priorities of the streams, in order.
pub open spec fn prios_of(streams: Seq<CbsChild>) -> Seq<i64> {
    Seq::new(streams.len(), |i: int| streams[i].prio)
}

/// The queue ranges of a shaper with this many classes: one queue each, one
/// after the other.
pub open spec fn cbs_queues(num_tc: int) -> Seq<Queue> {
    Seq::new(num_tc as nat, |i: int| Queue { count: 1, offset: i as u32 })
}

/// Whether a stream has a priority, a class, and a frame size and a bandwidth
/// that are not negative.
pub open spec fn child_ok(c: CbsChild) -> bool {
    &&& is_priority(c.prio)
    &&& c.max_frame >= 0
    &&& c.bandwidth >= 0
    &&& (c.class == 'a' || c.class == 'b')
}

impl CbsConfig {
    /// The streams are in order and what is derived from them is in place:
    /// each stream's priority has a class of its own, in the order of first
    /// sight, every other priority has the best-effort class, and the credits
    /// are those of the streams on the link.
    pub open spec fn wf(&self) -> bool {
        let order = first_seen(prios_of(self.streams@));
        &&& forall|i: int| 0 <= i < self.streams@.len() ==> child_ok(#[trigger] self.streams@[i])
        &&& self.tc_map@ == tc_map_of(order)
        &&& self.num_tc == order.len() + 1
        &&& self.queues@ == cbs_queues(self.num_tc as int)
        &&& load_of(self.streams@, self.linkspeed).credits() == Some(
            (self.credit_a, self.credit_b),
        )
    }

    /// Derives the shaper of streams that are in order, on a link of this
    /// speed. Where the credits cannot be worked out, `InvalidConfig` is
    /// returned.
    pub fn new(streams: Vec<CbsChild>, linkspeed: i64) -> (r: Result<CbsConfig, TsnError>)
        requires
            forall|i: int| 0 <= i < streams@.len() ==> child_ok(#[trigger] streams@[i]),
        ensures
            match r {
                Ok(c) => c.wf() && c.streams == streams && c.linkspeed == linkspeed,
                Err(e) => load_of(streams@, linkspeed).credits() is None && e
                    == TsnError::InvalidConfig,
            },
    {
        let (credit_a, credit_b) = match calc_credits(&streams, linkspeed) {
            Ok(c) => c,
            Err(e) => {
                return Err(e);
            },
        };
        let n: usize = streams.len();
        let mut order: Vec<i64> = Vec::new();
        let mut i: usize = 0;
        assert(prios_of(streams@.take(0)) =~= Seq::<i64>::empty());
        while i < n
            invariant
                i <= n,
                n == streams@.len(),
                order@ == first_seen(prios_of(streams@.take(i as int))),
            decreases n - i,
        {
            assert(prios_of(streams@.take(i + 1)).drop_last() =~= prios_of(
                streams@.take(i as int),
            ));
            see(&mut order, streams[i].prio);
            i = i + 1;
        }
        proof {
            assert(streams@.take(n as int) =~= streams@);
            lemma_first_seen_len(prios_of(streams@));
        }
        let tc_map = dense_map(&order);
        let num_tc: i64 = order.len() as i64 + 1;
        let mut queues: Vec<Queue> = Vec::new();
        let mut q: u32 = 0;
        while (q as i64) < num_tc
            invariant
                0 <= q <= num_tc <= PRIORITIES + 1,
                queues@ == cbs_queues(q as int),
            decreases num_tc - q,
        {
            queues.push(Queue { count: 1, offset: q });
            q = q + 1;
            assert(queues@ =~= cbs_queues(q as int));
        }
        Ok(CbsConfig { tc_map, num_tc, queues, credit_a, credit_b, streams, linkspeed })
    }
}

/// Whether the two classes together ask no more than the link can carry.
pub open spec fn within_link(streams: Seq<CbsChild>, linkspeed: i64) -> bool {
    idle_slope(streams, 'a') + idle_slope(streams, 'b') <= linkspeed
}

impl CbsConfig {
    /// Tells whether the two classes together ask no more than the link can
    /// carry.
    pub fn fits_link(&self) -> (b: bool)
        ensures
            b == within_link(self.streams@, self.linkspeed),
    {
        let (ia, fa) = sum_class(&self.streams, 'a');
        let (ib, fb) = sum_class(&self.streams, 'b');
        match ia.checked_add(ib) {
            Some(v) => v <= self.linkspeed as i128,
            None => ia < 0,
        }
    }
}

/// A mapping that fails to give streams up to some entry gives none as a
/// whole.
proof fn lemma_children_fail(es: Seq<(Node, Node)>, i: int)
    requires
        0 <= i < es.len(),
        children_of(es.take(i + 1)) is None,
    ensures
        children_of(es) is None,
    decreases es.len() - i,
{
    if i + 1 < es.len() {
        assert(es.take(i + 2).drop_last() =~= es.take(i + 1));
        lemma_children_fail(es, i + 1);
    } else {
        assert(es.take(i + 1) =~= es);
    }
}

/// Each stream that a mapping gives is in order.
proof fn lemma_children_ok(es: Seq<(Node, Node)>)
    requires
        children_of(es) is Some,
    ensures
        children_of(es)->0.len() == es.len(),
        forall|i: int| 0 <= i < es.len() ==> child_ok(#[trigger] children_of(es)->0[i]),
    decreases es.len(),
{
    if es.len() > 0 {
        lemma_children_ok(es.drop_last());
    }
}

fn read_class(text: &str) -> (r: Option<char>)
    ensures
        r == class_named(text@),
{
    let chars = to_chars(text);
    if chars.len() == 1 && (chars[0] == 'a' || chars[0] == 'b') {
        Some(chars[0])
    } else {
        None
    }
}

fn read_child(key: &Node, value: &Node) -> (r: Option<CbsChild>)
    ensures
        r == child_of(*key, *value),
{
    let p: i64 = match key {
        Node::Int(p) => *p,
        _ => {
            return None;
        },
    };
    let fs = match value {
        Node::Dict(fs) => fs,
        _ => {
            return None;
        },
    };
    let m = match get(fs, "max_frame") {
        Some(m) => m,
        None => {
            return None;
        },
    };
    let b = match get(fs, "bandwidth") {
        Some(b) => b,
        None => {
            return None;
        },
    };
    let c = match get(fs, "class") {
        Some(Node::Text(c)) => c,
        _ => {
            return None;
        },
    };
    let max_frame: i64 = match to_bits(m) {
        Ok(v) => v,
        Err(_) => {
            return None;
        },
    };
    let bandwidth: i64 = match to_bps(b) {
        Ok(v) => v,
        Err(_) => {
            return None;
        },
    };
    let class = match read_class(c.as_str()) {
        Some(v) => v,
        None => {
            return None;
        },
    };
    if 0 <= p && p < PRIORITIES as i64 {
        Some(CbsChild { prio: p, max_frame, bandwidth, class })
    } else {
        None
    }
}

/// What normalising a credit-based shaper gives: the streams that the node
/// gives, on the link whose speed the report gives, with their credits; where
/// any of these is missing, `InvalidConfig`.
pub open spec fn normal_cbs(config: Node, report: Option<Seq<char>>) -> Option<
    (Seq<CbsChild>, i64),
> {
    match (cbs_of(config), link_speed_of(report)) {
        (Some(streams), Ok(speed)) => if load_of(streams, speed).credits() is Some {
            Some((streams, speed))
        } else {
            None
        },
        _ => None,
    }
}

/// Normalises the credit-based shaper of an interface. `report` is what the
/// link inspector said of the interface, if it said anything.
pub fn normalise_cbs(config: &Node, report: Option<&str>) -> (r: Result<CbsConfig, TsnError>)
    ensures
        match r {
            Ok(c) => normal_cbs(*config, report_view(report)) == Some((c.streams@, c.linkspeed))
                && c.wf(),
            Err(e) => normal_cbs(*config, report_view(report)) is None && e
                == TsnError::InvalidConfig,
        },
{
    let linkspeed: i64 = match link_speed(report) {
        Ok(v) => v,
        Err(_) => {
            return Err(TsnError::InvalidConfig);
        },
    };
    let es = match config {
        Node::Dict(es) => es,
        _ => {
            return Err(TsnError::InvalidConfig);
        },
    };
    let n: usize = es.len();
    let mut streams: Vec<CbsChild> = Vec::new();
    let mut i: usize = 0;
    while i < n
        invariant
            i <= n,
            n == es@.len(),
            cbs_of(*config) == children_of(es@),
            children_of(es@.take(i as int)) == Some(streams@),
        decreases n - i,
    {
        assert(es@.take(i + 1).drop_last() =~= es@.take(i as int));
        assert(es@.take(i + 1).last() == es@[i as int]);
        match read_child(&es[i].0, &es[i].1) {
            Some(c) => {
                streams.push(c);
            },
            None => {
                proof {
                    lemma_children_fail(es@, i as int);
                }
                return Err(TsnError::InvalidConfig);
            },
        }
        i = i + 1;
    }
    proof {
        assert(es@.take(n as int) =~= es@);
        lemma_children_ok(es@);
    }
    CbsConfig::new(streams, linkspeed)
}

/// The sums over streams that are in order are not negative.
pub proof fn lemma_sums_not_negative(streams: Seq<CbsChild>, class: char)
    requires
        forall|i: int| 0 <= i < streams.len() ==> child_ok(#[trigger] streams[i]),
    ensures
        idle_slope(streams, class) >= 0,
        max_frame(streams, class) >= 0,
    decreases streams.len(),
{
    if streams.len() > 0 {
        assert(child_ok(streams[streams.len() - 1]));
        lemma_sums_not_negative(streams.drop_last(), class);
    }
}

/// On a link that the two classes together do not overbook, each class has an
/// idle slope that is not negative and a send slope that is not positive, in
/// bits and in the kilobits that the qdisc is told.
pub proof fn lemma_slopes(c: CbsConfig)
    requires
        c.wf(),
        within_link(c.streams@, c.linkspeed),
    ensures
        idle_slope(c.streams@, 'a') >= 0,
        idle_slope(c.streams@, 'b') >= 0,
        idle_slope(c.streams@, 'a') - c.linkspeed <= 0,
        idle_slope(c.streams@, 'b') - c.linkspeed <= 0,
        c.credit_a.idleslope >= 0,
        c.credit_b.idleslope >= 0,
        c.credit_a.sendslope <= 0,
        c.credit_b.sendslope <= 0,
{
    lemma_sums_not_negative(c.streams@, 'a');
    lemma_sums_not_negative(c.streams@, 'b');
    let load = load_of(c.streams@, c.linkspeed);
    lemma_floor_div(load.idle_a, 1000);
    lemma_floor_div(load.idle_b, 1000);
    lemma_floor_div(load.idle_a - load.link, 1000);
    lemma_floor_div(load.idle_b - load.link, 1000);
}

/// On a link that the two classes together do not overbook, the high credit
/// of each class is not negative and the low credit is not positive.
pub proof fn lemma_credit_signs(c: CbsConfig)
    requires
        c.wf(),
        within_link(c.streams@, c.linkspeed),
    ensures
        c.credit_a.hicredit >= 0,
        c.credit_a.locredit <= 0,
        c.credit_b.hicredit >= 0,
        c.credit_b.locredit <= 0,
{
    lemma_sums_not_negative(c.streams@, 'a');
    lemma_sums_not_negative(c.streams@, 'b');
    let load = load_of(c.streams@, c.linkspeed);
    let l = load.link;
    assert(load.idle_a * load.frame_a >= 0) by (nonlinear_arith)
        requires
            load.idle_a >= 0,
            load.frame_a >= 0,
    ;
    assert((load.idle_a - l) * load.frame_a <= 0) by (nonlinear_arith)
        requires
            load.idle_a - l <= 0,
            load.frame_a >= 0,
    ;
    assert((load.idle_b - l) * load.frame_b <= 0) by (nonlinear_arith)
        requires
            load.idle_b - l <= 0,
            load.frame_b >= 0,
    ;
    assert(load.hi_b_over() >= 0) by (nonlinear_arith)
        requires
            load.idle_b >= 0,
            load.frame_b >= 0,
            load.frame_a >= 0,
            l > 0,
            l - load.idle_a >= 0,
            load.hi_b_over() == load.idle_b * (load.frame_b * l + load.frame_a * (l
                - load.idle_a)),
    ;
    assert(load.spare() > 0) by (nonlinear_arith)
        requires
            l > 0,
            l - load.idle_a > 0,
            load.spare() == (l - load.idle_a) * l,
    ;
    lemma_ceil_sign(load.idle_a * load.frame_a, l);
    lemma_ceil_sign((load.idle_a - l) * load.frame_a, l);
    lemma_ceil_sign((load.idle_b - l) * load.frame_b, l);
    lemma_ceil_sign(load.hi_b_over(), load.spare());
}

/// Rounding a quotient up keeps it on its side of zero.
proof fn lemma_ceil_sign(n: int, d: int)
    requires
        d > 0,
    ensures
        n >= 0 ==> ceil_div(n, d) >= 0,
        n <= 0 ==> ceil_div(n, d) <= 0,
{
    if n > 0 {
        assert((n - 1) / d >= 0) by (nonlinear_arith)
            requires
                n - 1 >= 0,
                d > 0,
        ;
    } else {
        assert((-n) / d >= 0) by (nonlinear_arith)
            requires
                -n >= 0,
                d > 0,
        ;
    }
}

} // verus!
