//! Fixed-capacity buffer of GPU marker instances.
//!
//! A [`MarkerInstance`] is a flat record of eight 32-bit words; the buffer's
//! byte view serializes exactly the first `len()` records, each as its eight
//! words in order, every word little-endian, 32 bytes per record with no
//! padding. That byte layout is the handoff contract to the GPU upload path.

use crate::error::CoreError;
use crate::marker::{spec_phase, Color, Marker};
use vstd::prelude::*;

verus! {

/// GPU instance data for a single marker: eight packed 32-bit words.
///
/// Positions are in micropixels, the intensity in micro-units, the phase in
/// ten-thousandths of a full turn, and the color channels are 8-bit values
/// widened to a word each.
#[derive(Debug, Clone, Copy, PartialEq, Eq, Structural)]
pub struct MarkerInstance {
    /// X position in micropixels.
    pub x: u32,
    /// Y position in micropixels.
    pub y: u32,
    /// Glow intensity in micro-units.
    pub intensity: u32,
    /// Animation phase in ten-thousandths of a full turn.
    pub phase: u32,
    /// Red channel (0 to 255).
    pub r: u32,
    /// Green channel (0 to 255).
    pub g: u32,
    /// Blue channel (0 to 255).
    pub b: u32,
    /// Alpha channel (0 to 255).
    pub a: u32,
}

/// The four little-endian bytes of a 32-bit word.
pub open spec fn spec_u32_le_bytes(w: u32) -> Seq<u8> {
    seq![
        (w % 256) as u8,
        ((w / 256) % 256) as u8,
        ((w / 65536) % 256) as u8,
        ((w / 16777216) % 256) as u8,
    ]
}

/// The 32 bytes of one instance record: its eight words in declaration
/// order, each little-endian.
pub open spec fn spec_instance_bytes(m: MarkerInstance) -> Seq<u8> {
    spec_u32_le_bytes(m.x) + spec_u32_le_bytes(m.y) + spec_u32_le_bytes(m.intensity)
        + spec_u32_le_bytes(m.phase) + spec_u32_le_bytes(m.r) + spec_u32_le_bytes(m.g)
        + spec_u32_le_bytes(m.b) + spec_u32_le_bytes(m.a)
}

/// The concatenated bytes of a sequence of instance records.
pub open spec fn spec_buffer_bytes(data: Seq<MarkerInstance>) -> Seq<u8>
    decreases data.len(),
{
    if data.len() == 0 {
        Seq::empty()
    } else {
        spec_buffer_bytes(data.drop_last()) + spec_instance_bytes(data.last())
    }
}

/// Appends the four little-endian bytes of a word.
fn push_u32_le(out: &mut Vec<u8>, w: u32)
    ensures
        final(out)@ == old(out)@ + spec_u32_le_bytes(w),
{
    out.push((w % 256) as u8);
    out.push(((w / 256) % 256) as u8);
    out.push(((w / 65536) % 256) as u8);
    out.push(((w / 16777216) % 256) as u8);
    proof {
        assert(final(out)@ =~= old(out)@ + spec_u32_le_bytes(w));
    }
}

/// Appends the 32 bytes of one instance record.
fn push_instance_bytes(out: &mut Vec<u8>, m: &MarkerInstance)
    ensures
        final(out)@ == old(out)@ + spec_instance_bytes(*m),
{
    push_u32_le(out, m.x);
    push_u32_le(out, m.y);
    push_u32_le(out, m.intensity);
    push_u32_le(out, m.phase);
    push_u32_le(out, m.r);
    push_u32_le(out, m.g);
    push_u32_le(out, m.b);
    push_u32_le(out, m.a);
    proof {
        assert(final(out)@ =~= old(out)@ + spec_instance_bytes(*m));
    }
}

/// Fixed-capacity append buffer of marker instances.
///
/// The capacity is set at construction and never grows; the element count
/// never exceeds it. Clearing resets the count without releasing the backing
/// storage, so the buffer can be reused across frames.
pub struct MarkerBuffer {
    data: Vec<MarkerInstance>,
    capacity: usize,
    count: usize,
}

impl View for MarkerBuffer {
    type V = Seq<MarkerInstance>;

    /// The active instances: the first `count` records.
    closed spec fn view(&self) -> Seq<MarkerInstance> {
        self.data@.subrange(0, self.count as int)
    }
}

impl MarkerBuffer {
    /// Internal consistency: the count never exceeds the stored prefix, the
    /// storage never exceeds the capacity.
    pub closed spec fn wf(&self) -> bool {
        &&& self.count <= self.data@.len()
        &&& self.data@.len() <= self.capacity
        &&& self.capacity < usize::MAX
    }

    /// The fixed capacity.
    pub closed spec fn spec_capacity(&self) -> usize {
        self.capacity
    }

    /// Law: the buffer never holds more than its capacity. Every
    /// well-formed buffer — and every constructor and method keeps buffers
    /// well-formed — has at most `capacity` active instances.
    pub proof fn lemma_count_within_capacity(&self)
        requires
            self.wf(),
        ensures
            self@.len() <= self.spec_capacity(),
    {
    }

    /// Creates an empty buffer with the given fixed capacity.
    pub fn new(capacity: usize) -> (r: Self)
        requires
            capacity < usize::MAX,
        ensures
            r.wf(),
            r@ == Seq::<MarkerInstance>::empty(),
            r.spec_capacity() == capacity,
    {
        let r = MarkerBuffer { data: Vec::new(), capacity, count: 0 };
        proof {
            assert(r@ =~= Seq::<MarkerInstance>::empty());
        }
        r
    }

    /// Number of active instances.
    pub fn len(&self) -> (r: usize)
        requires
            self.wf(),
        ensures
            r == self@.len(),
    {
        self.count
    }

    /// Whether the buffer holds no active instances.
    pub fn is_empty(&self) -> (r: bool)
        requires
            self.wf(),
        ensures
            r == (self@.len() == 0),
    {
        self.count == 0
    }

    /// The fixed capacity.
    pub fn capacity(&self) -> (r: usize)
        requires
            self.wf(),
        ensures
            r == self.spec_capacity(),
    {
        self.capacity
    }

    /// Appends an instance.
    ///
    /// Fails with `CoreError::BufferOverflow` and leaves the buffer
    /// unchanged exactly when the buffer is full; otherwise the instance
    /// becomes the last active record.
    pub fn push(&mut self, instance: MarkerInstance) -> (r: Result<(), CoreError>)
        requires
            old(self).wf(),
        ensures
            final(self).wf(),
            final(self).spec_capacity() == old(self).spec_capacity(),
            old(self)@.len() < old(self).spec_capacity() ==> r == Ok::<(), CoreError>(())
                && final(self)@ == old(self)@.push(instance),
            old(self)@.len() >= old(self).spec_capacity() ==> r == Err::<(), CoreError>(
                CoreError::BufferOverflow {
                    requested: (old(self)@.len() + 1) as usize,
                    capacity: old(self).spec_capacity(),
                },
            ) && final(self)@ == old(self)@,
    {
        if self.count >= self.capacity {
            return Err(
                CoreError::BufferOverflow { requested: self.count + 1, capacity: self.capacity },
            );
        }
        if self.count < self.data.len() {
            self.data.set(self.count, instance);
        } else {
            self.data.push(instance);
        }
        self.count = self.count + 1;
        proof {
            assert(final(self)@ =~= old(self)@.push(instance));
        }
        Ok(())
    }

    /// Resets the count to zero without releasing the backing storage.
    pub fn clear(&mut self)
        requires
            old(self).wf(),
        ensures
            final(self).wf(),
            final(self)@ == Seq::<MarkerInstance>::empty(),
            final(self).spec_capacity() == old(self).spec_capacity(),
    {
        self.count = 0;
        proof {
            assert(final(self)@ =~= Seq::<MarkerInstance>::empty());
        }
    }

    /// Overwrites the active instance at `index` in place.
    ///
    /// Fails with a `CoreError::BufferOverflow`-class error and leaves the
    /// buffer unchanged exactly when `index` is not within the active count.
    pub fn update(&mut self, index: usize, instance: MarkerInstance) -> (r: Result<
        (),
        CoreError,
    >)
        requires
            old(self).wf(),
        ensures
            final(self).wf(),
            final(self).spec_capacity() == old(self).spec_capacity(),
            index < old(self)@.len() ==> r == Ok::<(), CoreError>(()) && final(self)@ == old(
                self,
            )@.update(index as int, instance),
            index >= old(self)@.len() ==> r == Err::<(), CoreError>(
                CoreError::BufferOverflow {
                    requested: if index == usize::MAX {
                        usize::MAX
                    } else {
                        (index + 1) as usize
                    },
                    capacity: (old(self)@.len() as usize),
                },
            ) && final(self)@ == old(self)@,
    {
        if index >= self.count {
            let requested = if index == usize::MAX {
                usize::MAX
            } else {
                index + 1
            };
            return Err(CoreError::BufferOverflow { requested, capacity: self.count });
        }
        self.data.set(index, instance);
        proof {
            assert(final(self)@ =~= old(self)@.update(index as int, instance));
        }
        Ok(())
    }

    /// The byte view handed to the GPU upload path: exactly the active
    /// records, serialized contiguously in the layout of
    /// [`spec_buffer_bytes`].
    pub fn as_bytes(&self) -> (r: Vec<u8>)
        requires
            self.wf(),
        ensures
            r@ == spec_buffer_bytes(self@),
            r@.len() == 32 * self@.len(),
    {
        let mut out: Vec<u8> = Vec::new();
        let mut i: usize = 0;
        proof {
            assert(self@.subrange(0, 0) =~= Seq::<MarkerInstance>::empty());
        }
        while i < self.count
            invariant
                self.wf(),
                i <= self.count,
                out@ == spec_buffer_bytes(self@.subrange(0, i as int)),
            decreases self.count - i,
        {
            push_instance_bytes(&mut out, &self.data[i]);
            i = i + 1;
            proof {
                let pre = self@.subrange(0, i as int);
                assert(pre.drop_last() =~= self@.subrange(0, i - 1));
                assert(pre.last() == self.data@[i - 1]);
            }
        }
        proof {
            assert(self@.subrange(0, self.count as int) =~= self@);
            lemma_buffer_bytes_len(self@);
        }
        out
    }
}

/// The serialized form of `n` records is exactly `32 * n` bytes long.
proof fn lemma_buffer_bytes_len(data: Seq<MarkerInstance>)
    ensures
        spec_buffer_bytes(data).len() == 32 * data.len(),
    decreases data.len(),
{
    if data.len() > 0 {
        lemma_buffer_bytes_len(data.drop_last());
    }
}

/// Builds GPU instance records from validated markers and a renderer-wide
/// default color.
pub struct InstanceBuilder {
    default_color: Color,
}

impl InstanceBuilder {
    /// The renderer-wide default color.
    pub closed spec fn spec_default_color(&self) -> Color {
        self.default_color
    }

    /// Creates a builder with the given default color.
    pub fn new(default_color: Color) -> (r: Self)
        ensures
            r.spec_default_color() == default_color,
    {
        InstanceBuilder { default_color }
    }

    /// Converts a marker and its already-projected screen position (in
    /// micropixels) into a flat instance record.
    ///
    /// The marker's color overrides the default when present; intensity and
    /// phase are copied verbatim.
    pub fn build(&self, marker: &Marker, x: u32, y: u32) -> (r: MarkerInstance)
        ensures
            r.x == x,
            r.y == y,
            r.intensity == marker.intensity,
            r.phase == spec_phase(marker.id),
            marker.color matches Some(c) ==> r.r == c.r as u32 && r.g == c.g as u32 && r.b
                == c.b as u32 && r.a == c.a as u32,
            marker.color is None ==> r.r == self.spec_default_color().r as u32 && r.g
                == self.spec_default_color().g as u32 && r.b == self.spec_default_color().b as u32
                && r.a == self.spec_default_color().a as u32,
    {
        let color = match &marker.color {
            Some(c) => *c,
            None => self.default_color,
        };
        let phase = marker.phase();
        MarkerInstance {
            x,
            y,
            intensity: marker.intensity,
            phase: phase as u32,
            r: color.r as u32,
            g: color.g as u32,
            b: color.b as u32,
            a: color.a as u32,
        }
    }
}

} // verus!
