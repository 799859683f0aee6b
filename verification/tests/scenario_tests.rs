use std::marker::PhantomData;

use certain_map::{Attach, Available, Fork, Handler, MaybeAvailable, Occupied, OccupiedM, Param,
    ParamMaybeMut, ParamMaybeRef, ParamMut, ParamRef, ParamRemove, ParamSet, ParamTake, Vacancy};

// The container the generator emits in the fully-allocated style for
//
//     #[derive(Clone)]
//     #[empty(EmptyNameAge)]
//     #[full(FullNameAge)]
//     pub struct NameAge {
//         name: String,
//         #[ensure(Clone)]
//         age: u8,
//     }
//
// written out by hand so the emitted surface can be driven end to end.

pub struct NameAge {
    name: Option<String>,
    age: Option<u8>,
}

pub struct NameAgeState<A, B>
where
    A: MaybeAvailable,
    B: MaybeAvailable,
{
    name: PhantomData<A>,
    age: PhantomData<B>,
}

pub struct NameAgeHandler<'a, A, B>
where
    A: MaybeAvailable,
    B: MaybeAvailable,
{
    inner: &'a mut NameAge,
    state: NameAgeState<A, B>,
}

pub type EmptyNameAge<'a> = NameAgeHandler<'a, Vacancy, Vacancy>;
pub type FullNameAge<'a> = NameAgeHandler<'a, OccupiedM, OccupiedM>;

impl NameAge {
    pub fn new() -> Self {
        Self { name: None, age: None }
    }
    pub fn handler(&mut self) -> NameAgeHandler<'_, Vacancy, Vacancy> {
        self.name = None;
        self.age = None;
        NameAgeHandler { inner: self, state: NameAgeState::new() }
    }
    fn clone_with<A, B>(&self, _state: &NameAgeState<A, B>) -> Self
    where
        A: MaybeAvailable,
        B: MaybeAvailable,
    {
        Self { name: A::do_clone(&self.name), age: B::do_clone(&self.age) }
    }
}

impl Handler for NameAge {
    type Hdr<'a> = NameAgeHandler<'a, Vacancy, Vacancy>
    where
        Self: 'a;
    fn handler(&mut self) -> Self::Hdr<'_> {
        self.handler()
    }
}

impl Default for NameAge {
    fn default() -> Self {
        Self::new()
    }
}

impl<A, B> NameAgeState<A, B>
where
    A: MaybeAvailable,
    B: MaybeAvailable,
{
    fn new() -> Self {
        Self { name: PhantomData, age: PhantomData }
    }
    pub fn attach(self, inner: &mut NameAge) -> NameAgeHandler<'_, A, B> {
        NameAgeHandler { inner, state: Self::new() }
    }
}

impl<A, B> Attach<NameAge> for NameAgeState<A, B>
where
    A: MaybeAvailable,
    B: MaybeAvailable,
{
    type Hdr<'a> = NameAgeHandler<'a, A, B>
    where
        NameAge: 'a;
    fn attach(self, store: &mut NameAge) -> Self::Hdr<'_> {
        self.attach(store)
    }
}

impl<A, B> NameAgeHandler<'_, A, B>
where
    A: MaybeAvailable,
    B: MaybeAvailable,
{
    pub fn fork(&self) -> (NameAge, NameAgeState<A, B>) {
        let inner = self.inner.clone_with(&self.state);
        (inner, NameAgeState::new())
    }
}

impl<A, B> Fork for NameAgeHandler<'_, A, B>
where
    A: MaybeAvailable,
    B: MaybeAvailable,
{
    type Store = NameAge;
    type State = NameAgeState<A, B>;
    fn fork(&self) -> (Self::Store, Self::State) {
        self.fork()
    }
}

impl<A, B> ParamRef<String> for NameAgeHandler<'_, A, B>
where
    A: Available,
    B: MaybeAvailable,
{
    fn param_ref(&self) -> &String {
        A::do_ref(&self.inner.name)
    }
}

impl<A, B> ParamMut<String> for NameAgeHandler<'_, A, B>
where
    A: Available,
    B: MaybeAvailable,
{
    fn param_mut(&mut self) -> &mut String {
        A::do_mut(&mut self.inner.name)
    }
}

impl<'a, A, B> ParamTake<String> for NameAgeHandler<'a, A, B>
where
    A: Available,
    B: MaybeAvailable,
{
    type Transformed = NameAgeHandler<'a, Vacancy, B>;
    fn param_take(mut self) -> (Self::Transformed, String) {
        let item = A::do_take(&mut self.inner.name);
        (NameAgeHandler { inner: self.inner, state: NameAgeState::new() }, item)
    }
}

impl<A, B> ParamMaybeRef<String> for NameAgeHandler<'_, A, B>
where
    A: MaybeAvailable,
    B: MaybeAvailable,
{
    fn param_maybe_ref(&self) -> Option<&String> {
        A::do_maybe_ref(&self.inner.name)
    }
}

impl<A, B> ParamMaybeMut<String> for NameAgeHandler<'_, A, B>
where
    A: MaybeAvailable,
    B: MaybeAvailable,
{
    fn param_maybe_mut(&mut self) -> Option<&mut String> {
        A::do_maybe_mut(&mut self.inner.name)
    }
}

impl<'a, A, B> ParamSet<String> for NameAgeHandler<'a, A, B>
where
    A: MaybeAvailable,
    B: MaybeAvailable,
{
    type Transformed = NameAgeHandler<'a, OccupiedM, B>;
    fn param_set(mut self, item: String) -> Self::Transformed {
        A::do_set(&mut self.inner.name, item);
        NameAgeHandler { inner: self.inner, state: NameAgeState::new() }
    }
}

impl<'a, A, B> ParamRemove<String> for NameAgeHandler<'a, A, B>
where
    A: MaybeAvailable,
    B: MaybeAvailable,
{
    type Transformed = NameAgeHandler<'a, Vacancy, B>;
    fn param_remove(mut self) -> Self::Transformed {
        A::do_drop(&mut self.inner.name);
        NameAgeHandler { inner: self.inner, state: NameAgeState::new() }
    }
}

impl<A, B> Param<String> for NameAgeHandler<'_, A, B>
where
    A: Available,
    B: MaybeAvailable,
{
    fn param(&self) -> String {
        A::do_read(&self.inner.name)
    }
}

impl<A, B> Param<Option<String>> for NameAgeHandler<'_, A, B>
where
    A: MaybeAvailable,
    B: MaybeAvailable,
{
    fn param(&self) -> Option<String> {
        A::do_maybe_ref(&self.inner.name).cloned()
    }
}

impl<A, B> ParamRef<u8> for NameAgeHandler<'_, A, B>
where
    B: Available,
    A: MaybeAvailable,
{
    fn param_ref(&self) -> &u8 {
        B::do_ref(&self.inner.age)
    }
}

impl<A, B> ParamMut<u8> for NameAgeHandler<'_, A, B>
where
    B: Available,
    A: MaybeAvailable,
{
    fn param_mut(&mut self) -> &mut u8 {
        B::do_mut(&mut self.inner.age)
    }
}

impl<'a, A, B> ParamTake<u8> for NameAgeHandler<'a, A, B>
where
    B: Available,
    A: MaybeAvailable,
{
    type Transformed = NameAgeHandler<'a, A, Vacancy>;
    fn param_take(mut self) -> (Self::Transformed, u8) {
        let item = B::do_take(&mut self.inner.age);
        (NameAgeHandler { inner: self.inner, state: NameAgeState::new() }, item)
    }
}

impl<A, B> ParamMaybeRef<u8> for NameAgeHandler<'_, A, B>
where
    A: MaybeAvailable,
    B: MaybeAvailable,
{
    fn param_maybe_ref(&self) -> Option<&u8> {
        B::do_maybe_ref(&self.inner.age)
    }
}

impl<A, B> ParamMaybeMut<u8> for NameAgeHandler<'_, A, B>
where
    A: MaybeAvailable,
    B: MaybeAvailable,
{
    fn param_maybe_mut(&mut self) -> Option<&mut u8> {
        B::do_maybe_mut(&mut self.inner.age)
    }
}

impl<'a, A, B> ParamSet<u8> for NameAgeHandler<'a, A, B>
where
    A: MaybeAvailable,
    B: MaybeAvailable,
{
    type Transformed = NameAgeHandler<'a, A, OccupiedM>;
    fn param_set(mut self, item: u8) -> Self::Transformed {
        B::do_set(&mut self.inner.age, item);
        NameAgeHandler { inner: self.inner, state: NameAgeState::new() }
    }
}

impl<'a, A, B> ParamRemove<u8> for NameAgeHandler<'a, A, B>
where
    A: MaybeAvailable,
    B: MaybeAvailable,
{
    type Transformed = NameAgeHandler<'a, A, Vacancy>;
    fn param_remove(mut self) -> Self::Transformed {
        B::do_drop(&mut self.inner.age);
        NameAgeHandler { inner: self.inner, state: NameAgeState::new() }
    }
}

impl<A, B> Param<u8> for NameAgeHandler<'_, A, B>
where
    B: Available,
    A: MaybeAvailable,
{
    fn param(&self) -> u8 {
        B::do_read(&self.inner.age)
    }
}

impl<A, B> Param<Option<u8>> for NameAgeHandler<'_, A, B>
where
    A: MaybeAvailable,
    B: MaybeAvailable,
{
    fn param(&self) -> Option<u8> {
        B::do_maybe_ref(&self.inner.age).cloned()
    }
}

#[test]
fn two_slot_scenario() {
    let mut store = NameAge::new();
    let h = store.handler();
    let absent: Option<u8> = h.param();
    assert_eq!(absent, None);
    let h = h.param_set("a".to_string());
    let name_ref: &String = h.param_ref();
    assert_eq!(name_ref, "a");
    let h = h.param_set(10u8);
    let _full_check: &FullNameAge = &h;
    let age: u8 = h.param();
    assert_eq!(age, 10);
    let (h, name) = ParamTake::<String>::param_take(h);
    assert_eq!(name, "a");
    let gone: Option<&String> = h.param_maybe_ref();
    assert!(gone.is_none());
    let still: Option<&u8> = h.param_maybe_ref();
    assert_eq!(still, Some(&10));
    let h = ParamRemove::<u8>::param_remove(h);
    let _empty_check: EmptyNameAge<'_> = h;
}

#[test]
fn remove_on_absent_slot_is_a_no_op() {
    let mut store = NameAge::new();
    let h = store.handler();
    let h = ParamRemove::<u8>::param_remove(h);
    let h = ParamRemove::<u8>::param_remove(h);
    let _empty_check: EmptyNameAge<'_> = h;
}

#[test]
fn overwriting_set_keeps_the_last_value() {
    let mut store = NameAge::new();
    let h = store.handler();
    let h = h.param_set("first".to_string());
    let h = h.param_set("second".to_string());
    let name_ref: &String = h.param_ref();
    assert_eq!(name_ref, "second");
}

#[test]
fn mutable_access_writes_through() {
    let mut store = NameAge::new();
    let mut h = store.handler().param_set("a".to_string());
    let r: &mut String = h.param_mut();
    r.push('b');
    let name_ref: &String = h.param_ref();
    assert_eq!(name_ref, "ab");
}

#[test]
fn fork_yields_independent_copy_in_the_same_shape() {
    let mut store = NameAge::new();
    let mut h = store.handler().param_set("a".to_string());
    let (mut store2, state2) = h.fork();
    let mut h2 = state2.attach(&mut store2);
    let r: &mut String = h.param_mut();
    *r = "changed".to_string();
    let original: &String = h.param_ref();
    let forked: &String = h2.param_ref();
    assert_eq!(original, "changed");
    assert_eq!(forked, "a");
    let r2: &mut String = h2.param_mut();
    *r2 = "other".to_string();
    let original: &String = h.param_ref();
    assert_eq!(original, "changed");
}

#[test]
fn handler_reuse_clears_leftover_slots() {
    let mut store = NameAge::new();
    {
        let h = store.handler();
        let _h = h.param_set("left over".to_string());
    }
    let h = store.handler();
    let nothing: Option<&String> = h.param_maybe_ref();
    assert!(nothing.is_none());
}

// A one-slot record in the shape-changing style, as its generator emits it.

pub struct Solo<A> {
    value: A,
}

impl Solo<Vacancy> {
    pub fn new() -> Self {
        Self { value: Vacancy }
    }
}

impl<A> ParamSet<u8> for Solo<A> {
    type Transformed = Solo<Occupied<u8>>;
    fn param_set(self, item: u8) -> Self::Transformed {
        Solo { value: Occupied(item) }
    }
}

impl ParamRef<u8> for Solo<Occupied<u8>> {
    fn param_ref(&self) -> &u8 {
        &self.value.0
    }
}

impl ParamMaybeRef<u8> for Solo<Occupied<u8>> {
    fn param_maybe_ref(&self) -> Option<&u8> {
        Some(&self.value.0)
    }
}

impl ParamMaybeRef<u8> for Solo<Vacancy> {
    fn param_maybe_ref(&self) -> Option<&u8> {
        None
    }
}

impl<A> ParamRemove<u8> for Solo<A> {
    type Transformed = Solo<Vacancy>;
    fn param_remove(self) -> Self::Transformed {
        Solo { value: Vacancy }
    }
}

impl ParamTake<u8> for Solo<Occupied<u8>> {
    type Transformed = Solo<Vacancy>;
    fn param_take(self) -> (Self::Transformed, u8) {
        let after_remove = Solo { value: Vacancy };
        (after_remove, self.value.0)
    }
}

#[test]
fn shape_changing_record_round_trips() {
    let solo = Solo::new();
    assert_eq!(solo.param_maybe_ref(), None);
    let solo = solo.param_set(7);
    assert_eq!(solo.param_ref(), &7);
    let (solo, taken) = solo.param_take();
    assert_eq!(taken, 7);
    let solo = solo.param_remove();
    let _vacant_check: Solo<Vacancy> = solo;
}
