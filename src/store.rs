use vstd::prelude::*;
use crate::error::CubeError;

verus! {

/// Number of facelets on the cube.
pub const NUM_FACELETS: usize = 54;

/// Number of facelets on one face.
pub const FACE_SIZE: usize = 9;

/// Base index of each face in the store.
pub const LEFT: usize = 0;
pub const RIGHT: usize = 9;
pub const DOWN: usize = 18;
pub const UP: usize = 27;
pub const BACK: usize = 36;
pub const FRONT: usize = 45;

/// The six faces, in the order in which they are laid out in the store.
#[derive(Debug, Clone, Copy, PartialEq, Eq, Structural)]
pub enum Face {
    Left,
    Right,
    Down,
    Up,
    Back,
    Front,
}

impl Face {
    /// Position of the face in the store's face order.
    pub open spec fn ordinal(self) -> int {
        match self {
            Face::Left => 0,
            Face::Right => 1,
            Face::Down => 2,
            Face::Up => 3,
            Face::Back => 4,
            Face::Front => 5,
        }
    }

    /// Index of the first facelet of this face.
    pub fn base(self) -> (r: usize)
        ensures
            r == 9 * self.ordinal(),
    {
        match self {
            Face::Left => LEFT,
            Face::Right => RIGHT,
            Face::Down => DOWN,
            Face::Up => UP,
            Face::Back => BACK,
            Face::Front => FRONT,
        }
    }
}

/// Store index of the facelet at `local` (0..=8) on `face`.
pub fn face_index(face: Face, local: usize) -> (r: Result<usize, CubeError>)
    ensures
        local < 9 ==> r == Ok::<usize, CubeError>((9 * face.ordinal() + local) as usize),
        local >= 9 ==> r == Err::<usize, CubeError>(CubeError::InvalidLocalIndex),
{
    if local < FACE_SIZE {
        Ok(face.base() + local)
    } else {
        Err(CubeError::InvalidLocalIndex)
    }
}

/// The colors of the 54 facelets, one per index.
pub struct FaceletStore<T> {
    facelets: Vec<T>,
}

impl<T: Copy> FaceletStore<T> {
    /// The colors by facelet index.
    pub closed spec fn view(&self) -> Seq<T> {
        self.facelets@
    }

    /// Every index holds exactly one color.
    pub open spec fn wf(&self) -> bool {
        self@.len() == 54
    }

    /// A store holding `colors`, one per facelet index; `None` unless there
    /// are exactly 54 of them.
    pub fn new(colors: Vec<T>) -> (r: Option<Self>)
        ensures
            colors@.len() == 54 <==> r.is_some(),
            r matches Some(s) ==> s.wf() && s@ == colors@,
    {
        if colors.len() == NUM_FACELETS {
            Some(FaceletStore { facelets: colors })
        } else {
            None
        }
    }

    /// The color at `index`.
    pub fn get(&self, index: usize) -> (r: Result<T, CubeError>)
        requires
            self.wf(),
        ensures
            index < 54 ==> r == Ok::<T, CubeError>(self@[index as int]),
            index >= 54 ==> r == Err::<T, CubeError>(CubeError::IndexOutOfRange),
    {
        if index < NUM_FACELETS {
            Ok(self.facelets[index])
        } else {
            Err(CubeError::IndexOutOfRange)
        }
    }

    /// Puts `color` at `index`.
    pub fn set(&mut self, index: usize, color: T) -> (r: Result<(), CubeError>)
        requires
            old(self).wf(),
        ensures
            final(self).wf(),
            index < 54 ==> r is Ok && final(self)@ == old(self)@.update(index as int, color),
            index >= 54 ==> r == Err::<(), CubeError>(CubeError::IndexOutOfRange)
                && final(self)@ == old(self)@,
    {
        if index < NUM_FACELETS {
            self.facelets.set(index, color);
            Ok(())
        } else {
            Err(CubeError::IndexOutOfRange)
        }
    }

    pub(crate) fn get_at(&self, index: usize) -> (r: T)
        requires
            self.wf(),
            index < 54,
        ensures
            r == self@[index as int],
    {
        self.facelets[index]
    }

    pub(crate) fn put_at(&mut self, index: usize, color: T)
        requires
            old(self).wf(),
            index < 54,
        ensures
            final(self).wf(),
            final(self)@ == old(self)@.update(index as int, color),
    {
        self.facelets.set(index, color);
    }

    /// All 54 colors in index order.
    pub fn colors(&self) -> (r: Vec<T>)
        requires
            self.wf(),
        ensures
            r@ == self@,
    {
        let mut out: Vec<T> = Vec::new();
        let mut i: usize = 0;
        while i < self.facelets.len()
            invariant
                i <= self.facelets@.len(),
                out@ == self.facelets@.subrange(0, i as int),
            decreases self.facelets@.len() - i,
        {
            out.push(self.facelets[i]);
            i = i + 1;
            assert(out@ =~= self.facelets@.subrange(0, i as int));
        }
        assert(out@ =~= self.facelets@);
        out
    }
}

} // verus!
