//! Typed access to the Linux per-process I/O priority mask.
//!
//! The kernel encodes an I/O priority as a 16-bit value: the top three bits
//! select a scheduling class (real-time, best-effort or idle) and the low
//! thirteen bits carry class-specific data, which for the real-time and
//! best-effort classes is a level between 0 and 7 with reversed ordering
//! (level 0 is the most important). This crate provides validated level
//! types, a tagged [`Class`], and the [`Priority`] codec that packs and
//! unpacks the mask, together with proofs that the encoding round-trips and
//! that the comparison operators follow the kernel's precedence rules.

use core::cmp::Ordering;
use vstd::prelude::*;

mod target;

pub use target::Target;
pub use target::target_which_who;

verus! {

/// Real-time I/O priority levels, ranging over the numerical values 0-7,
/// but reversed: zero is the highest priority level, 7 the lowest. The
/// real-time class grants I/O timeslices by level and can starve the rest of
/// the system, so assigning it requires elevated privileges.
#[derive(Clone, Copy, Debug, PartialEq, Eq, Structural, Hash)]
pub struct RtPriorityLevel {
    inner: u8,
}

impl RtPriorityLevel {
    /// The wrapped level as a mathematical value.
    pub closed spec fn spec_level(self) -> u8 {
        self.inner
    }

    /// A level is valid when it lies in the kernel's 0-7 range.
    pub open spec fn wf(self) -> bool {
        self.spec_level() <= 7
    }

    /// The highest real-time priority level, 0.
    pub fn highest() -> (r: Self)
        ensures
            r.spec_level() == 0,
            r.wf(),
    {
        Self { inner: 0 }
    }

    /// The lowest real-time priority level, 7.
    pub fn lowest() -> (r: Self)
        ensures
            r.spec_level() == 7,
            r.wf(),
    {
        Self { inner: 7 }
    }

    /// Wrap an underlying level, or `None` if it exceeds 7.
    pub fn from_level(level: u8) -> (r: Option<Self>)
        ensures
            level <= 7 ==> (r matches Some(l) && l.spec_level() == level),
            level > 7 ==> r is None,
    {
        if level < 8 {
            Some(Self { inner: level })
        } else {
            None
        }
    }

    /// Get the underlying level, ranging from 0 to 7.
    pub fn level(self) -> (r: u8)
        ensures
            r == self.spec_level(),
    {
        self.inner
    }

    /// The level widened to the mask's 13-bit data field.
    fn data(self) -> (r: u16)
        ensures
            r == self.spec_level() as u16,
    {
        self.inner as u16
    }
}

/// I/O priority levels of the best-effort scheduling class, which range over
/// 0-7, reversed: the highest level is 0, the lowest is 7. Best-effort is the
/// default class; level 4 is the conventional fallback level.
#[derive(Clone, Copy, Debug, PartialEq, Eq, Structural, Hash)]
pub struct BePriorityLevel {
    inner: u8,
}

impl BePriorityLevel {
    /// The wrapped level as a mathematical value.
    pub closed spec fn spec_level(self) -> u8 {
        self.inner
    }

    /// A level is valid when it lies in the kernel's 0-7 range.
    pub open spec fn wf(self) -> bool {
        self.spec_level() <= 7
    }

    /// The highest level, 0.
    pub fn highest() -> (r: Self)
        ensures
            r.spec_level() == 0,
            r.wf(),
    {
        Self { inner: 0 }
    }

    /// The fallback level, 4.
    pub fn fallback() -> (r: Self)
        ensures
            r.spec_level() == 4,
            r.wf(),
    {
        Self { inner: 4 }
    }

    /// The lowest level, 7.
    pub fn lowest() -> (r: Self)
        ensures
            r.spec_level() == 7,
            r.wf(),
    {
        Self { inner: 7 }
    }

    /// Wrap an underlying level, or `None` if it exceeds 7.
    pub fn from_level(level: u8) -> (r: Option<Self>)
        ensures
            level <= 7 ==> (r matches Some(l) && l.spec_level() == level),
            level > 7 ==> r is None,
    {
        if level < 8 {
            Some(Self { inner: level })
        } else {
            None
        }
    }

    /// Get the underlying level, ranging from 0 to 7.
    pub fn level(self) -> (r: u8)
        ensures
            r == self.spec_level(),
    {
        self.inner
    }

    /// The level widened to the mask's 13-bit data field.
    fn data(self) -> (r: u16)
        ensures
            r == self.spec_level() as u16,
    {
        self.inner as u16
    }
}

/// A priority class: real-time, best-effort, or idle.
///
/// Classes rank in that order regardless of their levels: every real-time
/// priority outranks every best-effort priority, and every best-effort
/// priority outranks idle. I/O submitted under the idle class is scheduled
/// only when the device is otherwise unused.
#[derive(Clone, Copy, Debug, PartialEq, Eq, Structural, Hash)]
pub enum Class {
    /// The real-time class, requiring elevated privileges to assign.
    Realtime(RtPriorityLevel),
    /// The best-effort class, the kernel's default.
    BestEffort(BePriorityLevel),
    /// The idle class: the lowest possible priority, carrying no level.
    Idle,
}

impl Class {
    /// Coarse rank of the class alone: Realtime above BestEffort above Idle.
    pub open spec fn spec_rank(self) -> u8 {
        match self {
            Class::Realtime(_) => 2,
            Class::BestEffort(_) => 1,
            Class::Idle => 0,
        }
    }

    /// The 2-bit kind tag the kernel mask stores in bits 15:13.
    pub open spec fn spec_kind(self) -> u16 {
        match self {
            Class::Realtime(_) => 1,
            Class::BestEffort(_) => 2,
            Class::Idle => 3,
        }
    }

    /// The 13-bit data field the kernel mask stores in bits 12:0.
    pub open spec fn spec_data(self) -> u16 {
        match self {
            Class::Realtime(rt) => rt.spec_level() as u16,
            Class::BestEffort(be) => be.spec_level() as u16,
            Class::Idle => 0,
        }
    }

    /// A class is valid when its level, if it carries one, is valid.
    pub open spec fn wf(self) -> bool {
        match self {
            Class::Realtime(rt) => rt.wf(),
            Class::BestEffort(be) => be.wf(),
            Class::Idle => true,
        }
    }

    /// How much scheduling precedence the class itself carries, before levels
    /// are compared.
    fn rel_priority(self) -> (r: u8)
        ensures
            r == self.spec_rank(),
    {
        match self {
            Class::Realtime(_) => 2,
            Class::BestEffort(_) => 1,
            Class::Idle => 0,
        }
    }

    /// The kind tag of the packed representation.
    fn kind(self) -> (r: u16)
        ensures
            r == self.spec_kind(),
    {
        match self {
            Class::Realtime(_) => 1,
            Class::BestEffort(_) => 2,
            Class::Idle => 3,
        }
    }

    /// The data field of the packed representation.
    fn data(self) -> (r: u16)
        ensures
            r == self.spec_data(),
    {
        match self {
            Class::Realtime(rt) => rt.data(),
            Class::BestEffort(be) => be.data(),
            Class::Idle => 0,
        }
    }
}

/// An I/O priority, wrapping the kernel's packed 16-bit mask: either a
/// class with its per-class data, or the standard (unset) priority, whose
/// mask is zero.
#[derive(Clone, Copy, Debug, PartialEq, Eq, Structural, Hash)]
pub struct Priority {
    inner: u16,
}

/// What it means for the packed mask `m` to decode to `r`.
///
/// A recognized kind tag (1, 2 or 3 in bits 15:13) whose data field is a
/// valid level yields exactly the matching class; the idle class ignores the
/// data bits. Kind 0 (the kernel's unset sentinel), the reserved kinds 4-7,
/// and level data above 7 under the real-time or best-effort kinds yield no
/// class at all.
pub open spec fn decodes_to(m: u16, r: Option<Class>) -> bool {
    let kind = m >> 13;
    let data = m & 0x1FFF;
    match r {
        Some(c) => {
            &&& c.wf()
            &&& c.spec_kind() == kind
            &&& (c is Idle || c.spec_data() == data)
        },
        None => kind == 0 || kind > 3 || ((kind == 1 || kind == 2) && data > 7),
    }
}

impl Priority {
    /// The wrapped mask as a mathematical value.
    pub closed spec fn spec_inner(self) -> u16 {
        self.inner
    }

    /// The packed mask a class encodes to: the kind tag in bits 15:13, the
    /// class data in bits 12:0.
    pub open spec fn spec_encode(c: Class) -> u16 {
        (c.spec_kind() << 13) | c.spec_data()
    }

    /// The class a packed mask decodes to, if its bit pattern is recognized.
    pub closed spec fn spec_decode(m: u16) -> Option<Class> {
        let kind = m >> 13;
        let data = m & 0x1FFF;
        if kind == 1 && data <= 7 {
            Some(Class::Realtime(RtPriorityLevel { inner: data as u8 }))
        } else if kind == 2 && data <= 7 {
            Some(Class::BestEffort(BePriorityLevel { inner: data as u8 }))
        } else if kind == 3 {
            Some(Class::Idle)
        } else {
            None
        }
    }

    /// Construct a new I/O priority value from the priority class and its
    /// per-class level.
    pub fn new(class: Class) -> (r: Self)
        ensures
            r.spec_inner() == Priority::spec_encode(class),
            class.wf() ==> Priority::spec_decode(r.spec_inner()) == Some(class),
    {
        proof {
            if class.wf() {
                lemma_encode_decode_round_trip(class);
            }
        }
        Self { inner: (class.kind() << 13) | class.data() }
    }

    /// Retrieve the class, if any recognized class is set.
    pub fn class(self) -> (r: Option<Class>)
        ensures
            r == Priority::spec_decode(self.spec_inner()),
            decodes_to(self.spec_inner(), r),
    {
        let mask: u16 = self.inner;
        let kind: u16 = mask >> 13;
        let data: u16 = mask & 0x1FFF;
        proof {
            assert(mask >> 13 <= 7) by (bit_vector);
        }
        if kind == 1 {
            if data <= 7 {
                Some(Class::Realtime(RtPriorityLevel { inner: data as u8 }))
            } else {
                None
            }
        } else if kind == 2 {
            if data <= 7 {
                Some(Class::BestEffort(BePriorityLevel { inner: data as u8 }))
            } else {
                None
            }
        } else if kind == 3 {
            Some(Class::Idle)
        } else {
            None
        }
    }

    /// The standard priority, with the inner mask of zero: the kernel's
    /// "not explicitly set" sentinel, which decodes to no class.
    pub fn standard() -> (r: Self)
        ensures
            r.spec_inner() == 0,
    {
        Self { inner: 0 }
    }

    /// Get the inner I/O priority mask, as other kernel-facing interfaces
    /// carry it.
    pub fn inner(self) -> (r: u16)
        ensures
            r == self.spec_inner(),
    {
        self.inner
    }

    /// Construct an I/O priority from the inner mask, verbatim. No
    /// validation happens here: whether the bits name a class is only
    /// checked on demand by [`Priority::class`].
    pub fn from_inner(inner: u16) -> (r: Self)
        ensures
            r.spec_inner() == inner,
    {
        Self { inner }
    }
}

impl Default for Priority {
    /// The default priority is the standard (unset) one.
    fn default() -> (r: Self)
        ensures
            r.spec_inner() == 0,
    {
        Self::standard()
    }
}

impl RtPriorityLevel {
    /// Reversed order: the numerically smaller raw level is the greater
    /// priority.
    pub open spec fn spec_cmp(self, other: Self) -> Ordering {
        if self.spec_level() > other.spec_level() {
            Ordering::Less
        } else if self.spec_level() == other.spec_level() {
            Ordering::Equal
        } else {
            Ordering::Greater
        }
    }
}

impl vstd::std_specs::cmp::PartialOrdSpecImpl for RtPriorityLevel {
    open spec fn obeys_partial_cmp_spec() -> bool {
        true
    }

    open spec fn partial_cmp_spec(&self, other: &Self) -> Option<Ordering> {
        Some(self.spec_cmp(*other))
    }
}

impl PartialOrd for RtPriorityLevel {
    fn partial_cmp(&self, other: &Self) -> (r: Option<Ordering>) {
        if self.inner > other.inner {
            Some(Ordering::Less)
        } else if self.inner == other.inner {
            Some(Ordering::Equal)
        } else {
            Some(Ordering::Greater)
        }
    }
}

impl BePriorityLevel {
    /// Reversed order: the numerically smaller raw level is the greater
    /// priority.
    pub open spec fn spec_cmp(self, other: Self) -> Ordering {
        if self.spec_level() > other.spec_level() {
            Ordering::Less
        } else if self.spec_level() == other.spec_level() {
            Ordering::Equal
        } else {
            Ordering::Greater
        }
    }
}

impl vstd::std_specs::cmp::PartialOrdSpecImpl for BePriorityLevel {
    open spec fn obeys_partial_cmp_spec() -> bool {
        true
    }

    open spec fn partial_cmp_spec(&self, other: &Self) -> Option<Ordering> {
        Some(self.spec_cmp(*other))
    }
}

impl PartialOrd for BePriorityLevel {
    fn partial_cmp(&self, other: &Self) -> (r: Option<Ordering>) {
        if self.inner > other.inner {
            Some(Ordering::Less)
        } else if self.inner == other.inner {
            Some(Ordering::Equal)
        } else {
            Some(Ordering::Greater)
        }
    }
}

impl Class {
    /// Kernel scheduling precedence between two classes: first by rank
    /// (real-time above best-effort above idle, whatever the levels), then,
    /// within the same class, by the level's own reversed order. Two idle
    /// values are always equal.
    pub open spec fn spec_cmp(self, other: Self) -> Ordering {
        match (self, other) {
            (Class::Realtime(a), Class::Realtime(b)) => a.spec_cmp(b),
            (Class::BestEffort(a), Class::BestEffort(b)) => a.spec_cmp(b),
            (Class::Idle, Class::Idle) => Ordering::Equal,
            _ => if self.spec_rank() < other.spec_rank() {
                Ordering::Less
            } else {
                Ordering::Greater
            },
        }
    }
}

impl vstd::std_specs::cmp::PartialOrdSpecImpl for Class {
    open spec fn obeys_partial_cmp_spec() -> bool {
        true
    }

    open spec fn partial_cmp_spec(&self, other: &Self) -> Option<Ordering> {
        Some(self.spec_cmp(*other))
    }
}

impl PartialOrd for Class {
    fn partial_cmp(&self, other: &Self) -> (r: Option<Ordering>) {
        match (self, other) {
            (Class::Realtime(a), Class::Realtime(b)) => a.partial_cmp(b),
            (Class::BestEffort(a), Class::BestEffort(b)) => a.partial_cmp(b),
            (Class::Idle, Class::Idle) => Some(Ordering::Equal),
            _ => {
                let ra: u8 = self.rel_priority();
                let rb: u8 = other.rel_priority();
                if ra < rb {
                    Some(Ordering::Less)
                } else {
                    Some(Ordering::Greater)
                }
            },
        }
    }
}

impl vstd::std_specs::cmp::PartialOrdSpecImpl for Priority {
    open spec fn obeys_partial_cmp_spec() -> bool {
        true
    }

    /// Priorities order partially: exactly when both masks decode, they
    /// compare as their decoded classes do; a mask with no recognized class
    /// has no defined scheduling meaning and stays unordered.
    open spec fn partial_cmp_spec(&self, other: &Self) -> Option<Ordering> {
        match (Priority::spec_decode(self.spec_inner()), Priority::spec_decode(other.spec_inner())) {
            (Some(a), Some(b)) => Some(a.spec_cmp(b)),
            _ => None,
        }
    }
}

impl PartialOrd for Priority {
    fn partial_cmp(&self, other: &Self) -> (r: Option<Ordering>) {
        match (self.class(), other.class()) {
            (Some(a), Some(b)) => a.partial_cmp(&b),
            _ => None,
        }
    }
}

/// Round-trip law: a class built from valid levels decodes back from its
/// own encoding, so packing into the kernel mask loses nothing.
pub proof fn lemma_encode_decode_round_trip(c: Class)
    requires
        c.wf(),
    ensures
        Priority::spec_decode(Priority::spec_encode(c)) == Some(c),
{
    let k: u16 = c.spec_kind();
    let d: u16 = c.spec_data();
    assert(1 <= k && k <= 3);
    assert(d <= 7);
    assert((((k << 13) | d) >> 13 == k && ((k << 13) | d) & 0x1FFF == d)) by (bit_vector)
        requires
            1 <= k && k <= 3 && d <= 7,
    ;
    let m: u16 = Priority::spec_encode(c);
    assert(m >> 13 == k);
    assert(m & 0x1FFF == d);
    match c {
        Class::Realtime(l) => {
            assert(d as u8 == l.spec_level());
        },
        Class::BestEffort(l) => {
            assert(d as u8 == l.spec_level());
        },
        Class::Idle => {},
    }
}

/// Decoding is a function of the mask alone: the [`decodes_to`] relation
/// admits at most one outcome for a given packed mask.
pub proof fn lemma_decode_unique(m: u16, r1: Option<Class>, r2: Option<Class>)
    requires
        decodes_to(m, r1),
        decodes_to(m, r2),
    ensures
        r1 == r2,
{
}

/// Restricted to valid classes, encoding is injective; together with the
/// round-trip law this makes the codec a bijection between valid classes
/// and their packed bit patterns.
pub proof fn lemma_encode_injective(c1: Class, c2: Class)
    requires
        c1.wf(),
        c2.wf(),
        Priority::spec_encode(c1) == Priority::spec_encode(c2),
    ensures
        c1 == c2,
{
    lemma_encode_decode_round_trip(c1);
    lemma_encode_decode_round_trip(c2);
}

/// The standard (unset) priority decodes to no class: the zero mask is the
/// kernel's sentinel, distinct from every real class.
pub proof fn lemma_standard_undecodable()
    ensures
        Priority::spec_decode(0) is None,
{
    assert(0u16 >> 13 == 0) by (bit_vector);
}

/// Within the real-time class, the order reverses the raw integers: of two
/// levels, the one with the numerically smaller raw value is the greater
/// priority.
pub proof fn lemma_rt_level_order_reversed(x: RtPriorityLevel, y: RtPriorityLevel)
    requires
        x.spec_level() < y.spec_level(),
    ensures
        x.spec_cmp(y) == Ordering::Greater,
        y.spec_cmp(x) == Ordering::Less,
{
}

/// Within the best-effort class, the order reverses the raw integers: of
/// two levels, the one with the numerically smaller raw value is the
/// greater priority.
pub proof fn lemma_be_level_order_reversed(x: BePriorityLevel, y: BePriorityLevel)
    requires
        x.spec_level() < y.spec_level(),
    ensures
        x.spec_cmp(y) == Ordering::Greater,
        y.spec_cmp(x) == Ordering::Less,
{
}

/// Across classes the rank alone decides: any real-time priority outranks
/// any best-effort priority, and any best-effort priority outranks idle,
/// whatever the levels involved.
pub proof fn lemma_cross_class_order(r: RtPriorityLevel, b: BePriorityLevel)
    ensures
        Class::Realtime(r).spec_cmp(Class::BestEffort(b)) == Ordering::Greater,
        Class::BestEffort(b).spec_cmp(Class::Idle) == Ordering::Greater,
        Class::Realtime(r).spec_cmp(Class::Idle) == Ordering::Greater,
{
}

} // verus!
