use vstd::prelude::*;

verus! {

/// The integer types a counter can count in: each has a value as a
/// mathematical integer, a range, a unit step, a strict order and checked
/// addition and subtraction.
pub trait CounterValue: Copy + Sized {
    /// The value as a mathematical integer.
    spec fn as_int(self) -> int;

    /// Whether `v` is within the range of the type.
    spec fn fits(v: int) -> bool;

    /// The unit step.
    fn one() -> (r: Self)
        ensures
            r.as_int() == 1,
    ;

    /// Whether `self` is less than `other`.
    fn less(&self, other: &Self) -> (r: bool)
        ensures
            r == (self.as_int() < other.as_int()),
    ;

    /// The sum, or `None` when it is out of range.
    fn checked_plus(self, other: Self) -> (r: Option<Self>)
        ensures
            match r {
                Some(s) => s.as_int() == self.as_int() + other.as_int(),
                None => !Self::fits(self.as_int() + other.as_int()),
            },
    ;

    /// The difference, or `None` when it is out of range.
    fn checked_minus(self, other: Self) -> (r: Option<Self>)
        ensures
            match r {
                Some(s) => s.as_int() == self.as_int() - other.as_int(),
                None => !Self::fits(self.as_int() - other.as_int()),
            },
    ;
}

impl CounterValue for i8 {
    open spec fn as_int(self) -> int {
        self as int
    }

    open spec fn fits(v: int) -> bool {
        i8::MIN <= v <= i8::MAX
    }

    fn one() -> (r: i8) {
        1
    }

    fn less(&self, other: &i8) -> (r: bool) {
        *self < *other
    }

    fn checked_plus(self, other: i8) -> (r: Option<i8>) {
        self.checked_add(other)
    }

    fn checked_minus(self, other: i8) -> (r: Option<i8>) {
        self.checked_sub(other)
    }
}

impl CounterValue for i16 {
    open spec fn as_int(self) -> int {
        self as int
    }

    open spec fn fits(v: int) -> bool {
        i16::MIN <= v <= i16::MAX
    }

    fn one() -> (r: i16) {
        1
    }

    fn less(&self, other: &i16) -> (r: bool) {
        *self < *other
    }

    fn checked_plus(self, other: i16) -> (r: Option<i16>) {
        self.checked_add(other)
    }

    fn checked_minus(self, other: i16) -> (r: Option<i16>) {
        self.checked_sub(other)
    }
}

impl CounterValue for i32 {
    open spec fn as_int(self) -> int {
        self as int
    }

    open spec fn fits(v: int) -> bool {
        i32::MIN <= v <= i32::MAX
    }

    fn one() -> (r: i32) {
        1
    }

    fn less(&self, other: &i32) -> (r: bool) {
        *self < *other
    }

    fn checked_plus(self, other: i32) -> (r: Option<i32>) {
        self.checked_add(other)
    }

    fn checked_minus(self, other: i32) -> (r: Option<i32>) {
        self.checked_sub(other)
    }
}

impl CounterValue for i64 {
    open spec fn as_int(self) -> int {
        self as int
    }

    open spec fn fits(v: int) -> bool {
        i64::MIN <= v <= i64::MAX
    }

    fn one() -> (r: i64) {
        1
    }

    fn less(&self, other: &i64) -> (r: bool) {
        *self < *other
    }

    fn checked_plus(self, other: i64) -> (r: Option<i64>) {
        self.checked_add(other)
    }

    fn checked_minus(self, other: i64) -> (r: Option<i64>) {
        self.checked_sub(other)
    }
}

impl CounterValue for i128 {
    open spec fn as_int(self) -> int {
        self as int
    }

    open spec fn fits(v: int) -> bool {
        i128::MIN <= v <= i128::MAX
    }

    fn one() -> (r: i128) {
        1
    }

    fn less(&self, other: &i128) -> (r: bool) {
        *self < *other
    }

    fn checked_plus(self, other: i128) -> (r: Option<i128>) {
        self.checked_add(other)
    }

    fn checked_minus(self, other: i128) -> (r: Option<i128>) {
        self.checked_sub(other)
    }
}

impl CounterValue for isize {
    open spec fn as_int(self) -> int {
        self as int
    }

    open spec fn fits(v: int) -> bool {
        isize::MIN <= v <= isize::MAX
    }

    fn one() -> (r: isize) {
        1
    }

    fn less(&self, other: &isize) -> (r: bool) {
        *self < *other
    }

    fn checked_plus(self, other: isize) -> (r: Option<isize>) {
        self.checked_add(other)
    }

    fn checked_minus(self, other: isize) -> (r: Option<isize>) {
        self.checked_sub(other)
    }
}

impl CounterValue for u8 {
    open spec fn as_int(self) -> int {
        self as int
    }

    open spec fn fits(v: int) -> bool {
        0 <= v <= u8::MAX
    }

    fn one() -> (r: u8) {
        1
    }

    fn less(&self, other: &u8) -> (r: bool) {
        *self < *other
    }

    fn checked_plus(self, other: u8) -> (r: Option<u8>) {
        self.checked_add(other)
    }

    fn checked_minus(self, other: u8) -> (r: Option<u8>) {
        self.checked_sub(other)
    }
}

impl CounterValue for u16 {
    open spec fn as_int(self) -> int {
        self as int
    }

    open spec fn fits(v: int) -> bool {
        0 <= v <= u16::MAX
    }

    fn one() -> (r: u16) {
        1
    }

    fn less(&self, other: &u16) -> (r: bool) {
        *self < *other
    }

    fn checked_plus(self, other: u16) -> (r: Option<u16>) {
        self.checked_add(other)
    }

    fn checked_minus(self, other: u16) -> (r: Option<u16>) {
        self.checked_sub(other)
    }
}

impl CounterValue for u32 {
    open spec fn as_int(self) -> int {
        self as int
    }

    open spec fn fits(v: int) -> bool {
        0 <= v <= u32::MAX
    }

    fn one() -> (r: u32) {
        1
    }

    fn less(&self, other: &u32) -> (r: bool) {
        *self < *other
    }

    fn checked_plus(self, other: u32) -> (r: Option<u32>) {
        self.checked_add(other)
    }

    fn checked_minus(self, other: u32) -> (r: Option<u32>) {
        self.checked_sub(other)
    }
}

impl CounterValue for u64 {
    open spec fn as_int(self) -> int {
        self as int
    }

    open spec fn fits(v: int) -> bool {
        0 <= v <= u64::MAX
    }

    fn one() -> (r: u64) {
        1
    }

    fn less(&self, other: &u64) -> (r: bool) {
        *self < *other
    }

    fn checked_plus(self, other: u64) -> (r: Option<u64>) {
        self.checked_add(other)
    }

    fn checked_minus(self, other: u64) -> (r: Option<u64>) {
        self.checked_sub(other)
    }
}

impl CounterValue for u128 {
    open spec fn as_int(self) -> int {
        self as int
    }

    open spec fn fits(v: int) -> bool {
        0 <= v <= u128::MAX
    }

    fn one() -> (r: u128) {
        1
    }

    fn less(&self, other: &u128) -> (r: bool) {
        *self < *other
    }

    fn checked_plus(self, other: u128) -> (r: Option<u128>) {
        self.checked_add(other)
    }

    fn checked_minus(self, other: u128) -> (r: Option<u128>) {
        self.checked_sub(other)
    }
}

impl CounterValue for usize {
    open spec fn as_int(self) -> int {
        self as int
    }

    open spec fn fits(v: int) -> bool {
        0 <= v <= usize::MAX
    }

    fn one() -> (r: usize) {
        1
    }

    fn less(&self, other: &usize) -> (r: bool) {
        *self < *other
    }

    fn checked_plus(self, other: usize) -> (r: Option<usize>) {
        self.checked_add(other)
    }

    fn checked_minus(self, other: usize) -> (r: Option<usize>) {
        self.checked_sub(other)
    }
}

/// A counter with an optional lower and upper bound and a default step.
///
/// `value` is the current count and `initial` the value that `reset`
/// restores. Every change but `reset` keeps the count within the bounds: it
/// never goes below `min` nor above `max`.
#[derive(Clone, Copy, Debug)]
pub struct Counter<T> {
    pub value: T,
    pub initial: T,
    pub min: Option<T>,
    pub max: Option<T>,
    pub step: T,
}

/// The amount that an increment or decrement by `amount` moves by.
pub open spec fn step_amount<T: CounterValue>(c: Counter<T>, amount: Option<T>) -> int {
    match amount {
        Some(a) => a.as_int(),
        None => c.step.as_int(),
    }
}

/// `value` raised to `min` if below it, then lowered to `max` if above it.
pub open spec fn clamped_value<T: CounterValue>(c: Counter<T>, value: int) -> int {
    let lo = match c.min {
        Some(m) => if value < m.as_int() { m.as_int() } else { value },
        None => value,
    };
    match c.max {
        Some(m) => if lo > m.as_int() { m.as_int() } else { lo },
        None => lo,
    }
}

/// The value after incrementing `v` by `amount` under the bounds of `c`.
pub open spec fn increment_from<T: CounterValue>(c: Counter<T>, v: int, amount: Option<T>) -> int {
    clamped_value(c, v + step_amount(c, amount))
}

/// The value after decrementing `v` by `amount` under the bounds of `c`.
pub open spec fn decrement_from<T: CounterValue>(c: Counter<T>, v: int, amount: Option<T>) -> int {
    clamped_value(c, v - step_amount(c, amount))
}

/// The value after incrementing `c` by `amount`, kept within the bounds.
pub open spec fn incremented_value<T: CounterValue>(c: Counter<T>, amount: Option<T>) -> int {
    increment_from(c, c.value.as_int(), amount)
}

/// The value after decrementing `c` by `amount`, kept within the bounds.
pub open spec fn decremented_value<T: CounterValue>(c: Counter<T>, amount: Option<T>) -> int {
    decrement_from(c, c.value.as_int(), amount)
}

/// Whether incrementing `c` by `amount` stays within the range of `T`.
pub open spec fn increment_fits<T: CounterValue>(c: Counter<T>, amount: Option<T>) -> bool {
    T::fits(c.value.as_int() + step_amount(c, amount))
}

/// Whether decrementing `c` by `amount` stays within the range of `T`.
pub open spec fn decrement_fits<T: CounterValue>(c: Counter<T>, amount: Option<T>) -> bool {
    T::fits(c.value.as_int() - step_amount(c, amount))
}

/// Whether the bounds that `c` gives admit some value: `min <= max` when both are given.
pub open spec fn bounds_ordered<T: CounterValue>(c: Counter<T>) -> bool {
    c.min is Some && c.max is Some ==> c.min->0.as_int() <= c.max->0.as_int()
}

/// Whether `v` lies within the bounds that `c` gives.
pub open spec fn within_bounds<T: CounterValue>(c: Counter<T>, v: int) -> bool {
    &&& (c.min matches Some(m) ==> m.as_int() <= v)
    &&& (c.max matches Some(m) ==> v <= m.as_int())
}

/// Whether `a` and `b` have the same configuration (all but the value).
pub open spec fn same_config<T>(a: Counter<T>, b: Counter<T>) -> bool {
    &&& a.initial == b.initial
    &&& a.min == b.min
    &&& a.max == b.max
    &&& a.step == b.step
}

impl<T: CounterValue> Counter<T> {
    /// A counter at `initial_value`; `options` holds the minimum, the maximum
    /// and the default step, which is 1 when not given.
    pub fn new(initial_value: T, options: Option<(Option<T>, Option<T>, Option<T>)>) -> (c: Counter<T>)
        ensures
            c.value == initial_value,
            c.initial == initial_value,
            match options {
                Some((min, max, step)) => {
                    &&& c.min == min
                    &&& c.max == max
                    &&& match step {
                        Some(s) => c.step == s,
                        None => c.step.as_int() == 1,
                    }
                },
                None => c.min is None && c.max is None && c.step.as_int() == 1,
            },
    {
        let (min, max, step) = match options {
            Some((min, max, step)) => (min, max, step),
            None => (None, None, None),
        };
        let step_value = match step {
            Some(s) => s,
            None => T::one(),
        };
        Counter { value: initial_value, initial: initial_value, min, max, step: step_value }
    }

    /// `value` raised to `min` and then lowered to `max` where they are given.
    fn clamp(&self, value: T) -> (r: T)
        ensures
            r.as_int() == clamped_value(*self, value.as_int()),
    {
        let mut new_value = value;
        if let Some(min_val) = self.min {
            if new_value.less(&min_val) {
                new_value = min_val;
            }
        }
        if let Some(max_val) = self.max {
            if max_val.less(&new_value) {
                new_value = max_val;
            }
        }
        new_value
    }

    /// Adds `amount` (or the default step), keeping the result within `min` and `max`.
    pub fn increment(&mut self, amount: Option<T>)
        requires
            increment_fits(*old(self), amount),
        ensures
            final(self).value.as_int() == incremented_value(*old(self), amount),
            bounds_ordered(*old(self)) ==> within_bounds(*final(self), final(self).value.as_int()),
            same_config(*final(self), *old(self)),
    {
        let step_to_use = match amount {
            Some(a) => a,
            None => self.step,
        };
        match self.value.checked_plus(step_to_use) {
            Some(sum) => {
                self.value = self.clamp(sum);
            },
            None => {},
        }
    }

    /// Subtracts `amount` (or the default step), keeping the result within `min` and `max`.
    pub fn decrement(&mut self, amount: Option<T>)
        requires
            decrement_fits(*old(self), amount),
        ensures
            final(self).value.as_int() == decremented_value(*old(self), amount),
            bounds_ordered(*old(self)) ==> within_bounds(*final(self), final(self).value.as_int()),
            same_config(*final(self), *old(self)),
    {
        let step_to_use = match amount {
            Some(a) => a,
            None => self.step,
        };
        match self.value.checked_minus(step_to_use) {
            Some(diff) => {
                self.value = self.clamp(diff);
            },
            None => {},
        }
    }

    /// Restores the initial value.
    pub fn reset(&mut self)
        ensures
            final(self).value == old(self).initial,
            same_config(*final(self), *old(self)),
    {
        self.value = self.initial;
    }

    /// Sets the value, raised to `min` and then lowered to `max` where they are given.
    pub fn set(&mut self, value: T)
        ensures
            final(self).value.as_int() == clamped_value(*old(self), value.as_int()),
            bounds_ordered(*old(self)) ==> within_bounds(*final(self), final(self).value.as_int()),
            same_config(*final(self), *old(self)),
    {
        self.value = self.clamp(value);
    }
}

/// With `min <= max`, clamping always lands within the bounds, and leaves a
/// value that is already within them unchanged.
pub proof fn lemma_clamp_within_bounds<T: CounterValue>(c: Counter<T>, value: int)
    requires
        bounds_ordered(c),
    ensures
        within_bounds(c, clamped_value(c, value)),
        clamped_value(c, value) == value <==> within_bounds(c, value),
{
}

/// Clamping lands on the nearest bound: a value below a given minimum becomes
/// that minimum (unless a maximum below the minimum wins), a value above a
/// given maximum becomes that maximum, and a value within the bounds is kept.
pub proof fn lemma_clamp_to_nearest_bound<T: CounterValue>(c: Counter<T>, value: int)
    ensures
        c.min is Some && value < c.min->0.as_int() && !(c.max is Some && c.max->0.as_int() < c.min->0.as_int())
            ==> clamped_value(c, value) == c.min->0.as_int(),
        c.max is Some && value > c.max->0.as_int() ==> clamped_value(c, value) == c.max->0.as_int(),
        within_bounds(c, value) ==> clamped_value(c, value) == value,
        clamped_value(c, value) == value || (c.min is Some && clamped_value(c, value) == c.min->0.as_int())
            || (c.max is Some && clamped_value(c, value) == c.max->0.as_int()),
{
}

/// A decrement or a set that would take the count below the minimum leaves it
/// at the minimum, and one above the maximum leaves it at the maximum,
/// whatever the count was before.
pub proof fn lemma_overshoot_lands_on_bound<T: CounterValue>(c: Counter<T>, amount: Option<T>, value: int)
    requires
        bounds_ordered(c),
    ensures
        c.min is Some && c.value.as_int() - step_amount(c, amount) < c.min->0.as_int()
            ==> decremented_value(c, amount) == c.min->0.as_int(),
        c.max is Some && c.value.as_int() + step_amount(c, amount) > c.max->0.as_int()
            ==> incremented_value(c, amount) == c.max->0.as_int(),
        c.min is Some && value < c.min->0.as_int() ==> clamped_value(c, value) == c.min->0.as_int(),
        c.max is Some && value > c.max->0.as_int() ==> clamped_value(c, value) == c.max->0.as_int(),
{
}

/// A decrement undoes an increment by the same amount when neither bound
/// was reached.
pub proof fn lemma_decrement_undoes_increment<T: CounterValue>(c: Counter<T>, amount: Option<T>)
    requires
        within_bounds(c, c.value.as_int() + step_amount(c, amount)),
        within_bounds(c, c.value.as_int()),
    ensures
        decrement_from(c, increment_from(c, c.value.as_int(), amount), amount) == c.value.as_int(),
{
}

/// An action on a counter.
pub enum CounterOp<T> {
    Increment(Option<T>),
    Decrement(Option<T>),
    Reset,
    SetTo(T),
}

/// The value after `op` from `v` under the configuration of `c`.
pub open spec fn apply_op<T: CounterValue>(c: Counter<T>, v: int, op: CounterOp<T>) -> int {
    match op {
        CounterOp::Increment(a) => increment_from(c, v, a),
        CounterOp::Decrement(a) => decrement_from(c, v, a),
        CounterOp::Reset => c.initial.as_int(),
        CounterOp::SetTo(x) => clamped_value(c, x.as_int()),
    }
}

/// The value after the actions of `ops`, in order, from `v`.
pub open spec fn apply_ops<T: CounterValue>(c: Counter<T>, v: int, ops: Seq<CounterOp<T>>) -> int
    decreases ops.len(),
{
    if ops.len() == 0 {
        v
    } else {
        apply_op(c, apply_ops(c, v, ops.drop_last()), ops.last())
    }
}

/// The count never leaves its bounds: a counter with `min <= max` whose current
/// and initial values are within the bounds stays within them under any
/// sequence of increments and decrements (by any amounts), sets and resets.
pub proof fn lemma_bounds_invariant<T: CounterValue>(c: Counter<T>, v: int, ops: Seq<CounterOp<T>>)
    requires
        bounds_ordered(c),
        within_bounds(c, v),
        within_bounds(c, c.initial.as_int()),
    ensures
        within_bounds(c, apply_ops(c, v, ops)),
    decreases ops.len(),
{
    if ops.len() > 0 {
        lemma_bounds_invariant(c, v, ops.drop_last());
    }
}

} // verus!
