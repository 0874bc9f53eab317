//! Fixed-capacity lists kept in `heapless::Vec`.

use vstd::prelude::*;

verus! {

/// Capacity of the auto mouse layer's entry and layer lists.
pub const AUTO_MOUSE_LAYER_MAX_NUM: usize = 8;

/// A list of at most `AUTO_MOUSE_LAYER_MAX_NUM` layer numbers, kept in a
/// `heapless::Vec`.
#[verifier::external_body]
pub struct LayerList {
    inner: heapless::Vec<u8, AUTO_MOUSE_LAYER_MAX_NUM>,
}

/// The layers held by a `LayerList`, in order.
pub uninterp spec fn layer_list_items(v: LayerList) -> Seq<u8>;

impl LayerList {
    /// `heapless::Vec::new`: an empty list.
    #[verifier::external_body]
    pub(crate) fn new() -> (r: Self)
        ensures
            layer_list_items(r).len() == 0,
    {
        LayerList { inner: heapless::Vec::new() }
    }

    /// `heapless::Vec::push`: appends when the list is below its capacity
    /// and hands the item back otherwise, leaving the list unchanged.
    #[verifier::external_body]
    pub(crate) fn push(&mut self, item: u8) -> (r: Result<(), u8>)
        ensures
            layer_list_items(*old(self)).len() < AUTO_MOUSE_LAYER_MAX_NUM ==> r is Ok,
            layer_list_items(*old(self)).len() >= AUTO_MOUSE_LAYER_MAX_NUM ==> (r matches Err(e) && e == item),
            layer_list_items(*final(self)) == (if layer_list_items(*old(self)).len()
                < AUTO_MOUSE_LAYER_MAX_NUM {
                layer_list_items(*old(self)).push(item)
            } else {
                layer_list_items(*old(self))
            }),
    {
        self.inner.push(item)
    }

    /// `heapless::Vec::len`: the number of layers held.
    #[verifier::external_body]
    pub(crate) fn len(&self) -> (r: usize)
        ensures
            r == layer_list_items(*self).len(),
    {
        self.inner.len()
    }

    /// Indexing of `heapless::Vec`: the layer at position `i`.
    #[verifier::external_body]
    pub(crate) fn get(&self, i: usize) -> (r: u8)
        requires
            i < layer_list_items(*self).len(),
        ensures
            r == layer_list_items(*self)[i as int],
    {
        self.inner[i]
    }

    /// The layers held, in order.
    pub fn to_vec(&self) -> (r: Vec<u8>)
        ensures
            r@ == layer_list_items(*self),
    {
        let mut out: Vec<u8> = Vec::new();
        let n = self.len();
        let mut i: usize = 0;
        while i < n
            invariant
                n == layer_list_items(*self).len(),
                i <= n,
                out@ == layer_list_items(*self).subrange(0, i as int),
            decreases n - i,
        {
            out.push(self.get(i));
            i = i + 1;
        }
        assert(layer_list_items(*self).subrange(0, n as int) == layer_list_items(*self));
        out
    }
}

} // verus!
