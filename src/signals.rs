use vstd::prelude::*;

verus! {

/// The kinds of values a signal can carry.
#[derive(Clone, Copy, Debug, PartialEq, Eq, Structural)]
pub enum ValueKind {
    Bool,
    I8,
    I16,
    I32,
    I64,
    U8,
    U16,
    U32,
    U64,
    Usize,
    Str,
    Text,
}

/// A value carried by a signal, tagged with its type.
#[derive(Clone, Debug)]
pub enum SignalValue {
    Bool(bool),
    I8(i8),
    I16(i16),
    I32(i32),
    I64(i64),
    U8(u8),
    U16(u16),
    U32(u32),
    U64(u64),
    Usize(usize),
    Str(&'static str),
    Text(String),
}

impl SignalValue {
    pub open spec fn kind(self) -> ValueKind {
        match self {
            SignalValue::Bool(_) => ValueKind::Bool,
            SignalValue::I8(_) => ValueKind::I8,
            SignalValue::I16(_) => ValueKind::I16,
            SignalValue::I32(_) => ValueKind::I32,
            SignalValue::I64(_) => ValueKind::I64,
            SignalValue::U8(_) => ValueKind::U8,
            SignalValue::U16(_) => ValueKind::U16,
            SignalValue::U32(_) => ValueKind::U32,
            SignalValue::U64(_) => ValueKind::U64,
            SignalValue::Usize(_) => ValueKind::Usize,
            SignalValue::Str(_) => ValueKind::Str,
            SignalValue::Text(_) => ValueKind::Text,
        }
    }

    pub fn value_kind(&self) -> (k: ValueKind)
        ensures
            k == self.kind(),
    {
        match self {
            SignalValue::Bool(_) => ValueKind::Bool,
            SignalValue::I8(_) => ValueKind::I8,
            SignalValue::I16(_) => ValueKind::I16,
            SignalValue::I32(_) => ValueKind::I32,
            SignalValue::I64(_) => ValueKind::I64,
            SignalValue::U8(_) => ValueKind::U8,
            SignalValue::U16(_) => ValueKind::U16,
            SignalValue::U32(_) => ValueKind::U32,
            SignalValue::U64(_) => ValueKind::U64,
            SignalValue::Usize(_) => ValueKind::Usize,
            SignalValue::Str(_) => ValueKind::Str,
            SignalValue::Text(_) => ValueKind::Text,
        }
    }

    /// A copy of the value.
    pub fn duplicate(&self) -> (r: SignalValue)
        ensures
            r == *self,
    {
        match self {
            SignalValue::Bool(x) => SignalValue::Bool(*x),
            SignalValue::I8(x) => SignalValue::I8(*x),
            SignalValue::I16(x) => SignalValue::I16(*x),
            SignalValue::I32(x) => SignalValue::I32(*x),
            SignalValue::I64(x) => SignalValue::I64(*x),
            SignalValue::U8(x) => SignalValue::U8(*x),
            SignalValue::U16(x) => SignalValue::U16(*x),
            SignalValue::U32(x) => SignalValue::U32(*x),
            SignalValue::U64(x) => SignalValue::U64(*x),
            SignalValue::Usize(x) => SignalValue::Usize(*x),
            SignalValue::Str(x) => SignalValue::Str(*x),
            SignalValue::Text(x) => SignalValue::Text(x.clone()),
        }
    }

    /// The carried value, when it is of type `T`.
    pub fn downcast_ref<T: SignalData>(&self) -> (r: Option<&T>)
        ensures
            r is Some <==> self.kind() == T::value_kind(),
            r matches Some(x) ==> x.erased() == *self,
    {
        T::from_value_ref(self)
    }
}

/// A type whose values a signal can carry.
pub trait SignalData: Sized {
    /// The kind every value of the type has.
    spec fn value_kind() -> ValueKind;

    /// The value tagged with its type.
    spec fn erased(&self) -> SignalValue;

    /// Every erased value has the type's kind.
    proof fn lemma_erased_kind(&self)
        ensures
            self.erased().kind() == Self::value_kind(),
    ;

    fn kind() -> (k: ValueKind)
        ensures
            k == Self::value_kind(),
    ;

    fn erase(&self) -> (v: SignalValue)
        ensures
            v == self.erased(),
            v.kind() == Self::value_kind(),
    ;

    fn from_value_ref(v: &SignalValue) -> (r: Option<&Self>)
        ensures
            r is Some <==> v.kind() == Self::value_kind(),
            r matches Some(x) ==> x.erased() == *v,
    ;

    fn from_value(v: &SignalValue) -> (r: Option<Self>)
        ensures
            r is Some <==> v.kind() == Self::value_kind(),
            r matches Some(x) ==> x.erased() == *v,
    ;
}

impl SignalData for bool {
    open spec fn value_kind() -> ValueKind {
        ValueKind::Bool
    }

    open spec fn erased(&self) -> SignalValue {
        SignalValue::Bool(*self)
    }

    proof fn lemma_erased_kind(&self) {
    }

    fn kind() -> (k: ValueKind) {
        ValueKind::Bool
    }

    fn erase(&self) -> (v: SignalValue) {
        SignalValue::Bool(*self)
    }

    fn from_value_ref(v: &SignalValue) -> (r: Option<&Self>) {
        match v {
            SignalValue::Bool(x) => Some(x),
            _ => None,
        }
    }

    fn from_value(v: &SignalValue) -> (r: Option<Self>) {
        match v {
            SignalValue::Bool(x) => Some(*x),
            _ => None,
        }
    }
}

impl SignalData for i8 {
    open spec fn value_kind() -> ValueKind {
        ValueKind::I8
    }

    open spec fn erased(&self) -> SignalValue {
        SignalValue::I8(*self)
    }

    proof fn lemma_erased_kind(&self) {
    }

    fn kind() -> (k: ValueKind) {
        ValueKind::I8
    }

    fn erase(&self) -> (v: SignalValue) {
        SignalValue::I8(*self)
    }

    fn from_value_ref(v: &SignalValue) -> (r: Option<&Self>) {
        match v {
            SignalValue::I8(x) => Some(x),
            _ => None,
        }
    }

    fn from_value(v: &SignalValue) -> (r: Option<Self>) {
        match v {
            SignalValue::I8(x) => Some(*x),
            _ => None,
        }
    }
}

impl SignalData for i16 {
    open spec fn value_kind() -> ValueKind {
        ValueKind::I16
    }

    open spec fn erased(&self) -> SignalValue {
        SignalValue::I16(*self)
    }

    proof fn lemma_erased_kind(&self) {
    }

    fn kind() -> (k: ValueKind) {
        ValueKind::I16
    }

    fn erase(&self) -> (v: SignalValue) {
        SignalValue::I16(*self)
    }

    fn from_value_ref(v: &SignalValue) -> (r: Option<&Self>) {
        match v {
            SignalValue::I16(x) => Some(x),
            _ => None,
        }
    }

    fn from_value(v: &SignalValue) -> (r: Option<Self>) {
        match v {
            SignalValue::I16(x) => Some(*x),
            _ => None,
        }
    }
}

impl SignalData for i32 {
    open spec fn value_kind() -> ValueKind {
        ValueKind::I32
    }

    open spec fn erased(&self) -> SignalValue {
        SignalValue::I32(*self)
    }

    proof fn lemma_erased_kind(&self) {
    }

    fn kind() -> (k: ValueKind) {
        ValueKind::I32
    }

    fn erase(&self) -> (v: SignalValue) {
        SignalValue::I32(*self)
    }

    fn from_value_ref(v: &SignalValue) -> (r: Option<&Self>) {
        match v {
            SignalValue::I32(x) => Some(x),
            _ => None,
        }
    }

    fn from_value(v: &SignalValue) -> (r: Option<Self>) {
        match v {
            SignalValue::I32(x) => Some(*x),
            _ => None,
        }
    }
}

impl SignalData for i64 {
    open spec fn value_kind() -> ValueKind {
        ValueKind::I64
    }

    open spec fn erased(&self) -> SignalValue {
        SignalValue::I64(*self)
    }

    proof fn lemma_erased_kind(&self) {
    }

    fn kind() -> (k: ValueKind) {
        ValueKind::I64
    }

    fn erase(&self) -> (v: SignalValue) {
        SignalValue::I64(*self)
    }

    fn from_value_ref(v: &SignalValue) -> (r: Option<&Self>) {
        match v {
            SignalValue::I64(x) => Some(x),
            _ => None,
        }
    }

    fn from_value(v: &SignalValue) -> (r: Option<Self>) {
        match v {
            SignalValue::I64(x) => Some(*x),
            _ => None,
        }
    }
}

impl SignalData for u8 {
    open spec fn value_kind() -> ValueKind {
        ValueKind::U8
    }

    open spec fn erased(&self) -> SignalValue {
        SignalValue::U8(*self)
    }

    proof fn lemma_erased_kind(&self) {
    }

    fn kind() -> (k: ValueKind) {
        ValueKind::U8
    }

    fn erase(&self) -> (v: SignalValue) {
        SignalValue::U8(*self)
    }

    fn from_value_ref(v: &SignalValue) -> (r: Option<&Self>) {
        match v {
            SignalValue::U8(x) => Some(x),
            _ => None,
        }
    }

    fn from_value(v: &SignalValue) -> (r: Option<Self>) {
        match v {
            SignalValue::U8(x) => Some(*x),
            _ => None,
        }
    }
}

impl SignalData for u16 {
    open spec fn value_kind() -> ValueKind {
        ValueKind::U16
    }

    open spec fn erased(&self) -> SignalValue {
        SignalValue::U16(*self)
    }

    proof fn lemma_erased_kind(&self) {
    }

    fn kind() -> (k: ValueKind) {
        ValueKind::U16
    }

    fn erase(&self) -> (v: SignalValue) {
        SignalValue::U16(*self)
    }

    fn from_value_ref(v: &SignalValue) -> (r: Option<&Self>) {
        match v {
            SignalValue::U16(x) => Some(x),
            _ => None,
        }
    }

    fn from_value(v: &SignalValue) -> (r: Option<Self>) {
        match v {
            SignalValue::U16(x) => Some(*x),
            _ => None,
        }
    }
}

impl SignalData for u32 {
    open spec fn value_kind() -> ValueKind {
        ValueKind::U32
    }

    open spec fn erased(&self) -> SignalValue {
        SignalValue::U32(*self)
    }

    proof fn lemma_erased_kind(&self) {
    }

    fn kind() -> (k: ValueKind) {
        ValueKind::U32
    }

    fn erase(&self) -> (v: SignalValue) {
        SignalValue::U32(*self)
    }

    fn from_value_ref(v: &SignalValue) -> (r: Option<&Self>) {
        match v {
            SignalValue::U32(x) => Some(x),
            _ => None,
        }
    }

    fn from_value(v: &SignalValue) -> (r: Option<Self>) {
        match v {
            SignalValue::U32(x) => Some(*x),
            _ => None,
        }
    }
}

impl SignalData for u64 {
    open spec fn value_kind() -> ValueKind {
        ValueKind::U64
    }

    open spec fn erased(&self) -> SignalValue {
        SignalValue::U64(*self)
    }

    proof fn lemma_erased_kind(&self) {
    }

    fn kind() -> (k: ValueKind) {
        ValueKind::U64
    }

    fn erase(&self) -> (v: SignalValue) {
        SignalValue::U64(*self)
    }

    fn from_value_ref(v: &SignalValue) -> (r: Option<&Self>) {
        match v {
            SignalValue::U64(x) => Some(x),
            _ => None,
        }
    }

    fn from_value(v: &SignalValue) -> (r: Option<Self>) {
        match v {
            SignalValue::U64(x) => Some(*x),
            _ => None,
        }
    }
}

impl SignalData for usize {
    open spec fn value_kind() -> ValueKind {
        ValueKind::Usize
    }

    open spec fn erased(&self) -> SignalValue {
        SignalValue::Usize(*self)
    }

    proof fn lemma_erased_kind(&self) {
    }

    fn kind() -> (k: ValueKind) {
        ValueKind::Usize
    }

    fn erase(&self) -> (v: SignalValue) {
        SignalValue::Usize(*self)
    }

    fn from_value_ref(v: &SignalValue) -> (r: Option<&Self>) {
        match v {
            SignalValue::Usize(x) => Some(x),
            _ => None,
        }
    }

    fn from_value(v: &SignalValue) -> (r: Option<Self>) {
        match v {
            SignalValue::Usize(x) => Some(*x),
            _ => None,
        }
    }
}

impl SignalData for &'static str {
    open spec fn value_kind() -> ValueKind {
        ValueKind::Str
    }

    open spec fn erased(&self) -> SignalValue {
        SignalValue::Str(*self)
    }

    proof fn lemma_erased_kind(&self) {
    }

    fn kind() -> (k: ValueKind) {
        ValueKind::Str
    }

    fn erase(&self) -> (v: SignalValue) {
        SignalValue::Str(*self)
    }

    fn from_value_ref(v: &SignalValue) -> (r: Option<&Self>) {
        match v {
            SignalValue::Str(x) => Some(x),
            _ => None,
        }
    }

    fn from_value(v: &SignalValue) -> (r: Option<Self>) {
        match v {
            SignalValue::Str(x) => Some(*x),
            _ => None,
        }
    }
}

impl SignalData for String {
    open spec fn value_kind() -> ValueKind {
        ValueKind::Text
    }

    open spec fn erased(&self) -> SignalValue {
        SignalValue::Text(*self)
    }

    proof fn lemma_erased_kind(&self) {
    }

    fn kind() -> (k: ValueKind) {
        ValueKind::Text
    }

    fn erase(&self) -> (v: SignalValue) {
        SignalValue::Text(self.clone())
    }

    fn from_value_ref(v: &SignalValue) -> (r: Option<&Self>) {
        match v {
            SignalValue::Text(x) => Some(x),
            _ => None,
        }
    }

    fn from_value(v: &SignalValue) -> (r: Option<Self>) {
        match v {
            SignalValue::Text(x) => Some(x.clone()),
            _ => None,
        }
    }
}

/// What a listener for `kind` receives when it connects: the kept value, when it is of
/// that kind.
pub open spec fn replay_of(last: Option<SignalValue>, kind: ValueKind) -> Option<SignalValue> {
    match last {
        Some(v) => if v.kind() == kind {
            Some(v)
        } else {
            None
        },
        None => None,
    }
}

/// Indices, in order, of the first `n` listeners that wait for values of kind `k`.
pub open spec fn matching(ls: Seq<ValueKind>, k: ValueKind, n: int) -> Seq<usize>
    decreases n,
{
    if n <= 0 {
        Seq::empty()
    } else if ls[n - 1] == k {
        matching(ls, k, n - 1).push((n - 1) as usize)
    } else {
        matching(ls, k, n - 1)
    }
}

/// How many of the first `n` listeners wait for values of kind `k`.
pub open spec fn count_kind(ls: Seq<ValueKind>, k: ValueKind, n: int) -> int
    decreases n,
{
    if n <= 0 {
        0
    } else {
        count_kind(ls, k, n - 1) + if ls[n - 1] == k {
            1int
        } else {
            0int
        }
    }
}

/// A broadcast channel with replay of the last value. Each listener waits for values of one
/// kind; emitting a value names, in registration order, the listeners that must receive it.
pub struct Signal {
    listeners: Vec<ValueKind>,
    last_value: Option<SignalValue>,
}

impl Signal {
    /// The kinds the registered listeners wait for, in registration order.
    pub closed spec fn listening(self) -> Seq<ValueKind> {
        self.listeners@
    }

    /// The value kept for replay.
    pub closed spec fn last(self) -> Option<SignalValue> {
        self.last_value
    }

    /// The kept value, borrowed.
    pub closed spec fn last_ref(&self) -> Option<&SignalValue> {
        match &self.last_value {
            Some(v) => Some(v),
            None => None,
        }
    }

    /// The borrowed kept value is the kept value: absent exactly when none is kept, and
    /// equal to it when one is.
    pub proof fn lemma_last_ref(&self)
        ensures
            self.last_ref() is None <==> self.last() is None,
            self.last() matches Some(v) ==> self.last_ref() matches Some(x) && *x == v,
    {
    }

    pub fn new() -> (s: Signal)
        ensures
            s.listening() == Seq::<ValueKind>::empty(),
            s.last() is None,
    {
        Signal { listeners: Vec::new(), last_value: None }
    }

    /// Registers a listener for values of `kind`. Returns its index and, when a kept value
    /// of that kind exists, that value, which the listener receives at once.
    pub fn connect(&mut self, kind: ValueKind) -> (r: (usize, Option<SignalValue>))
        ensures
            final(self).listening() == old(self).listening().push(kind),
            final(self).last() == old(self).last(),
            r.0 == old(self).listening().len(),
            r.1 == replay_of(old(self).last(), kind),
    {
        let index = self.listeners.len();
        self.listeners.push(kind);
        let replay = match &self.last_value {
            Some(v) => if v.value_kind() == kind {
                Some(v.duplicate())
            } else {
                None
            },
            None => None,
        };
        (index, replay)
    }

    /// The listeners, in registration order, that wait for values of `kind`.
    fn listeners_of(&self, kind: ValueKind) -> (r: Vec<usize>)
        ensures
            r@ == matching(self.listening(), kind, self.listening().len() as int),
    {
        let mut r: Vec<usize> = Vec::new();
        let mut i: usize = 0;
        while i < self.listeners.len()
            invariant
                i <= self.listeners@.len(),
                r@ == matching(self.listeners@, kind, i as int),
            decreases self.listeners@.len() - i,
        {
            if self.listeners[i] == kind {
                r.push(i);
            }
            i = i + 1;
        }
        r
    }

    /// Keeps a copy of `value` for replay and returns the listeners that receive it.
    pub fn emit<T: SignalData>(&mut self, value: &T) -> (r: Vec<usize>)
        ensures
            final(self).last() == Some(value.erased()),
            final(self).listening() == old(self).listening(),
            r@ == matching(old(self).listening(), T::value_kind(), old(self).listening().len() as int),
    {
        self.last_value = Some(value.erase());
        self.listeners_of(T::kind())
    }

    /// Returns the listeners that receive `value`, without keeping it.
    pub fn emit_unclonable<T: SignalData>(&self, value: &T) -> (r: Vec<usize>)
        ensures
            r@ == matching(self.listening(), T::value_kind(), self.listening().len() as int),
    {
        self.listeners_of(T::kind())
    }

    pub fn last_value_ref(&self) -> (r: &Option<SignalValue>)
        ensures
            *r == self.last(),
    {
        &self.last_value
    }

    /// Hands the kept value, if any, to `f` and returns what `f` returns.
    pub fn with_last_value<F, R>(&self, f: F) -> (r: R)
        where
            F: FnOnce(Option<&SignalValue>) -> R,
        requires
            f.requires((self.last_ref(),)),
        ensures
            f.ensures((self.last_ref(),), r),
            self.last_ref() is None <==> self.last() is None,
            self.last() matches Some(v) ==> self.last_ref() matches Some(x) && *x == v,
    {
        match &self.last_value {
            Some(v) => f(Some(v)),
            None => f(None),
        }
    }

    /// A copy of the kept value, when there is one of type `T`.
    pub fn get_last_value_cloned<T: SignalData>(&self) -> (r: Option<T>)
        ensures
            r is Some <==> (self.last() matches Some(v) && v.kind() == T::value_kind()),
            r matches Some(x) ==> self.last() == Some(x.erased()),
    {
        match &self.last_value {
            Some(v) => T::from_value(v),
            None => None,
        }
    }

    pub fn listener_count(&self) -> (n: usize)
        ensures
            n == self.listening().len(),
    {
        self.listeners.len()
    }
}

/// Emitting hands a value exactly to the listeners that wait for its kind: every index
/// returned is of such a listener, in increasing order, and there are as many as such
/// listeners exist.
pub proof fn lemma_emit_reaches_matching_listeners(ls: Seq<ValueKind>, k: ValueKind, n: int)
    requires
        0 <= n <= ls.len(),
        ls.len() <= usize::MAX,
    ensures
        matching(ls, k, n).len() == count_kind(ls, k, n),
        forall|j: int| 0 <= j < matching(ls, k, n).len() ==> {
            &&& (matching(ls, k, n)[j] as int) < n
            &&& ls[matching(ls, k, n)[j] as int] == k
        },
        forall|j: int, l: int| 0 <= j < l < matching(ls, k, n).len() ==> matching(ls, k, n)[j] < matching(ls, k, n)[l],
        forall|i: int| 0 <= i < n && ls[i] == k ==> matching(ls, k, n).contains(i as usize),
    decreases n,
{
    if n > 0 {
        lemma_emit_reaches_matching_listeners(ls, k, n - 1);
        let m = matching(ls, k, n - 1);
        if ls[n - 1] == k {
            let mm = m.push((n - 1) as usize);
            assert(matching(ls, k, n) == mm);
            assert forall|j: int| 0 <= j < mm.len() implies (mm[j] as int) < n && ls[mm[j] as int] == k by {
                if j < m.len() {
                    assert(mm[j] == m[j]);
                }
            }
            assert forall|j: int, l: int| 0 <= j < l < mm.len() implies mm[j] < mm[l] by {
                assert(mm[j] == m[j]);
                if l < m.len() {
                    assert(mm[l] == m[l]);
                }
            }
            assert forall|i: int| 0 <= i < n && ls[i] == k implies mm.contains(i as usize) by {
                if i < n - 1 {
                    let j = choose|j: int| 0 <= j < m.len() && m[j] == i as usize;
                    assert(mm[j] == i as usize);
                } else {
                    assert(mm[m.len() as int] == i as usize);
                }
            }
        } else {
            assert(matching(ls, k, n) == m);
        }
    }
}

/// A value emitted and kept by a signal reaches a listener connected afterwards for its
/// type, once, through `connect` itself; a listener for another type gets nothing.
pub proof fn lemma_connect_replays_last_emit<T: SignalData>(x: T, kind: ValueKind)
    ensures
        T::value_kind() == kind ==> replay_of(Some(x.erased()), kind) == Some(x.erased()),
        T::value_kind() != kind ==> replay_of(Some(x.erased()), kind) is None,
{
    x.lemma_erased_kind();
}

/// Names under which signals are registered.
#[derive(Clone, Debug)]
pub enum SignalNames {
    Keyboard,
    Custom(String),
}

impl SignalNames {
    /// Whether two names are the same: both the keyboard's, or custom with equal text.
    pub open spec fn same_as(self, other: SignalNames) -> bool {
        match (self, other) {
            (SignalNames::Keyboard, SignalNames::Keyboard) => true,
            (SignalNames::Custom(a), SignalNames::Custom(b)) => a@ == b@,
            _ => false,
        }
    }

    pub fn same(&self, other: &SignalNames) -> (r: bool)
        ensures
            r == self.same_as(*other),
    {
        match (self, other) {
            (SignalNames::Keyboard, SignalNames::Keyboard) => true,
            (SignalNames::Custom(a), SignalNames::Custom(b)) => *a == *b,
            _ => false,
        }
    }
}

/// The signals of an environment, each under its own name.
pub struct Signals {
    entries: Vec<(SignalNames, Signal)>,
}

impl Signals {
    pub closed spec fn names(self) -> Seq<SignalNames> {
        Seq::new(self.entries@.len(), |i: int| self.entries@[i].0)
    }

    pub closed spec fn signal(self, i: int) -> Signal {
        self.entries@[i].1
    }

    pub fn new() -> (s: Signals)
        ensures
            s.names().len() == 0,
    {
        Signals { entries: Vec::new() }
    }

    /// Index of the signal registered under `name`.
    pub fn find(&self, name: &SignalNames) -> (r: Option<usize>)
        ensures
            r is Some <==> exists|i: int| 0 <= i < self.names().len() && self.names()[i].same_as(*name),
            r matches Some(i) ==> i < self.names().len() && self.names()[i as int].same_as(*name)
                && forall|j: int| 0 <= j < i ==> !self.names()[j].same_as(*name),
    {
        let mut i: usize = 0;
        while i < self.entries.len()
            invariant
                i <= self.entries@.len(),
                forall|j: int| 0 <= j < i ==> !self.names()[j].same_as(*name),
            decreases self.entries@.len() - i,
        {
            if self.entries[i].0.same(name) {
                assert(self.names()[i as int].same_as(*name));
                return Some(i);
            }
            i = i + 1;
        }
        None
    }

    /// Index of the signal registered under `name`, created empty when there is none.
    pub fn get_or_create(&mut self, name: SignalNames) -> (i: usize)
        ensures
            i < final(self).names().len(),
            final(self).names()[i as int].same_as(name),
            old(self).names().len() <= final(self).names().len() <= old(self).names().len() + 1,
            forall|j: int| 0 <= j < old(self).names().len() ==> final(self).names()[j] == old(self).names()[j]
                && final(self).signal(j) == old(self).signal(j),
    {
        match self.find(&name) {
            Some(i) => i,
            None => {
                let i = self.entries.len();
                let ghost n = name;
                self.entries.push((name, Signal::new()));
                proof {
                    assert(self.names()[i as int] == n);
                    assert(n.same_as(n));
                }
                i
            },
        }
    }

    pub fn len(&self) -> (n: usize)
        ensures
            n == self.names().len(),
    {
        self.entries.len()
    }

    /// Emits `value` on signal `i`; returns the listeners that receive it.
    pub fn emit_on<T: SignalData>(&mut self, i: usize, value: &T) -> (r: Vec<usize>)
        requires
            i < old(self).names().len(),
        ensures
            final(self).names() == old(self).names(),
            final(self).signal(i as int).last() == Some(value.erased()),
            final(self).signal(i as int).listening() == old(self).signal(i as int).listening(),
            r@ == matching(
                old(self).signal(i as int).listening(),
                T::value_kind(),
                old(self).signal(i as int).listening().len() as int,
            ),
            forall|j: int| 0 <= j < old(self).names().len() && j != i ==> final(self).signal(j) == old(self).signal(j),
    {
        let r = self.entries[i].1.emit(value);
        assert(self.names() =~= old(self).names());
        r
    }

    /// Connects a listener for values of `kind` to signal `i`.
    pub fn connect_on(&mut self, i: usize, kind: ValueKind) -> (r: (usize, Option<SignalValue>))
        requires
            i < old(self).names().len(),
        ensures
            final(self).names() == old(self).names(),
            final(self).signal(i as int).listening() == old(self).signal(i as int).listening().push(kind),
            final(self).signal(i as int).last() == old(self).signal(i as int).last(),
            r.0 == old(self).signal(i as int).listening().len(),
            r.1 == replay_of(old(self).signal(i as int).last(), kind),
            forall|j: int| 0 <= j < old(self).names().len() && j != i ==> final(self).signal(j) == old(self).signal(j),
    {
        let r = self.entries[i].1.connect(kind);
        assert(self.names() =~= old(self).names());
        r
    }
}

} // verus!
