//! A holder for a resource that is put in once and taken out once.

use vstd::prelude::*;

verus! {

/// Holds one value until it is taken out.
///
/// A wrapper type keeps its platform handle in such a cell: it reads the
/// handle through [`OptionCell::deref`] without unwrapping at every use, and in
/// a staged teardown hands it to another owner with [`OptionCell::take`].
///
/// The cell is empty after `take`. To read or take from an empty cell is a
/// mistake of the program, not an error to recover from: both operations
/// leave that case out by their `requires`, and [`OptionCell::is_empty`] lets
/// a caller test for it.
pub struct OptionCell<T>(Option<T>);

impl<T> View for OptionCell<T> {
    type V = Option<T>;

    /// `Some` of the held value, or `None` once it has been taken.
    closed spec fn view(&self) -> Option<T> {
        self.0
    }
}

impl<T> OptionCell<T> {
    /// A cell that holds `data`.
    pub fn new(data: T) -> (cell: Self)
        ensures
            cell@ == Some(data),
    {
        OptionCell(Some(data))
    }

    /// Whether the value has been taken out.
    pub fn is_empty(&self) -> (empty: bool)
        ensures
            empty == (self@ is None),
    {
        self.0.is_none()
    }

    /// The held value. The cell is left as it is, so every read before a
    /// `take` gives the same value.
    pub fn deref(&self) -> (data: &T)
        requires
            self@ is Some,
        ensures
            self@ == Some(*data),
    {
        self.0.as_ref().expect("no data to deref for OptionCell")
    }

    /// Takes the held value out and leaves the cell empty.
    pub fn take(&mut self) -> (data: T)
        requires
            old(self)@ is Some,
        ensures
            old(self)@ == Some(data),
            final(self)@ is None,
    {
        self.0.take().expect("no data to take for OptionCell")
    }
}

/// A cell made with a value admits a read and a `take`. That value is the
/// one that every read sees and the one that `take` hands out, and `take`
/// leaves the cell empty: in the state that the `requires` of a read and of
/// a `take` leave out.
pub proof fn lemma_cell_hands_out_what_it_got<T>(data: T, cell: OptionCell<T>)
    requires
        call_ensures(OptionCell::<T>::new, (data,), cell),
    ensures
        call_requires(OptionCell::<T>::deref, (&cell,)),
        forall|read: &T| #[trigger]
            call_ensures(OptionCell::<T>::deref, (&cell,), read) ==> *read == data,
        forall|borrow: &mut OptionCell<T>|
            *borrow == cell ==> #[trigger] call_requires(OptionCell::<T>::take, (borrow,)),
        forall|borrow: &mut OptionCell<T>, taken: T|
            *borrow == cell && #[trigger] call_ensures(OptionCell::<T>::take, (borrow,), taken)
                ==> taken == data && final(borrow)@ is None,
{
}

} // verus!
