//! A variable held in memory: its extents, its element buffer and what was
//! gathered about it while it was read.
//!
//! The element type is a parameter. The engine only moves elements around; it
//! never computes with them, so any `Copy` type can stand for a sample.

use crate::collections::StringMap;
use crate::shape::{all_positive, checked_product, extents_positive, in_bounds, index_in_bounds,
    linear_index, ravel, shape_product, unravel, unravel_index};
use crate::slicing::SlicingState;
use vstd::prelude::*;
use vstd::slice::slice_to_vec;

verus! {

/// Kind of element a stored variable is made of.
#[derive(Debug, Clone, Copy, PartialEq, Eq, Structural)]
pub enum ElementKind {
    /// Signed 8-bit integer.
    Int8,
    /// Signed 16-bit integer.
    Int16,
    /// Signed 32-bit integer.
    Int32,
    /// Signed 64-bit integer.
    Int64,
    /// Unsigned 8-bit integer.
    UInt8,
    /// Unsigned 16-bit integer.
    UInt16,
    /// Unsigned 32-bit integer.
    UInt32,
    /// Unsigned 64-bit integer.
    UInt64,
    /// 32-bit floating point.
    Float32,
    /// 64-bit floating point.
    Float64,
    /// Single characters.
    Char,
    /// Variable-length text.
    Text,
    /// Anything else (compound, opaque, enumerated, ...).
    Other,
}

impl ElementKind {
    /// Whether elements of this kind can be widened to one numeric representation.
    pub open spec fn spec_is_numeric(self) -> bool {
        !(self is Char || self is Text || self is Other)
    }

    /// Whether elements of this kind can be widened to one numeric representation.
    #[verifier::when_used_as_spec(spec_is_numeric)]
    pub fn is_numeric(self) -> (r: bool)
        ensures
            r == self.spec_is_numeric(),
    {
        match self {
            ElementKind::Char | ElementKind::Text | ElementKind::Other => false,
            _ => true,
        }
    }

    /// Lower-case tag shown next to a variable.
    pub fn name(self) -> (r: &'static str)
        ensures
            r@ == match self {
                ElementKind::Int8 => "i8"@,
                ElementKind::Int16 => "i16"@,
                ElementKind::Int32 => "i32"@,
                ElementKind::Int64 => "i64"@,
                ElementKind::UInt8 => "u8"@,
                ElementKind::UInt16 => "u16"@,
                ElementKind::UInt32 => "u32"@,
                ElementKind::UInt64 => "u64"@,
                ElementKind::Float32 => "float"@,
                ElementKind::Float64 => "double"@,
                ElementKind::Char => "char"@,
                ElementKind::Text => "string"@,
                ElementKind::Other => "other"@,
            },
    {
        match self {
            ElementKind::Int8 => "i8",
            ElementKind::Int16 => "i16",
            ElementKind::Int32 => "i32",
            ElementKind::Int64 => "i64",
            ElementKind::UInt8 => "u8",
            ElementKind::UInt16 => "u16",
            ElementKind::UInt32 => "u32",
            ElementKind::UInt64 => "u64",
            ElementKind::Float32 => "float",
            ElementKind::Float64 => "double",
            ElementKind::Char => "char",
            ElementKind::Text => "string",
            ElementKind::Other => "other",
        }
    }
}

/// Why a variable could not be loaded.
#[derive(Debug, Clone, Copy, PartialEq, Eq, Structural)]
pub enum LoadError {
    /// No variable lives at the requested path.
    NotFound,
    /// The variable's elements are not numeric.
    UnsupportedType,
    /// What was declared about the variable does not fit what was read.
    Corrupt,
    /// The underlying read failed.
    Io,
}

impl LoadError {
    /// What to tell the user about the failure.
    pub fn message(self) -> (r: &'static str)
        ensures
            r@ == match self {
                LoadError::NotFound => "no variable at this path"@,
                LoadError::UnsupportedType => "the elements are not numeric"@,
                LoadError::Corrupt => "the declared shape does not fit the stored elements"@,
                LoadError::Io => "the read failed"@,
            },
    {
        match self {
            LoadError::NotFound => "no variable at this path",
            LoadError::UnsupportedType => "the elements are not numeric",
            LoadError::Corrupt => "the declared shape does not fit the stored elements",
            LoadError::Io => "the read failed",
        }
    }
}

/// Axis labels for one dimension.
#[derive(Debug, Clone)]
pub struct CoordinateVar<T> {
    /// One label per position along the dimension.
    pub values: Vec<T>,
    /// Unit of the labels, if declared.
    pub units: Option<String>,
    /// Descriptive name of the axis, if declared.
    pub long_name: Option<String>,
}

/// What one streaming pass over the scaled elements accumulated.
#[derive(Debug, Clone, Copy)]
pub struct Moments<T> {
    /// Number of finite elements seen.
    pub valid_count: usize,
    /// Smallest finite element; meaningful when `valid_count >= 1`.
    pub min: T,
    /// Largest finite element; meaningful when `valid_count >= 1`.
    pub max: T,
    /// Running mean; meaningful when `valid_count >= 1`.
    pub mean: T,
    /// Sample standard deviation; meaningful when `valid_count >= 2`.
    pub std: T,
}

/// Summary statistics of a variable, each present only when enough finite
/// elements back it.
#[derive(Debug, Clone, Copy)]
pub struct Statistics<T> {
    /// Smallest and largest finite element.
    pub min_max: Option<(T, T)>,
    /// Mean of the finite elements.
    pub mean: Option<T>,
    /// Sample standard deviation of the finite elements.
    pub std: Option<T>,
    /// Number of finite elements.
    pub valid_count: usize,
    /// Number of elements, finite or not.
    pub total_count: usize,
}

impl<T: Copy> Statistics<T> {
    /// What `summarize` makes of the given accumulators.
    pub open spec fn of(moments: Moments<T>, total_count: usize) -> Statistics<T> {
        Statistics {
            min_max: if moments.valid_count >= 1 {
                Some((moments.min, moments.max))
            } else {
                None
            },
            mean: if moments.valid_count >= 1 {
                Some(moments.mean)
            } else {
                None
            },
            std: if moments.valid_count >= 2 {
                Some(moments.std)
            } else {
                None
            },
            valid_count: moments.valid_count,
            total_count,
        }
    }

    /// Turns accumulators into statistics: minimum, maximum and mean need one
    /// finite element, the standard deviation needs two.
    pub fn summarize(moments: Moments<T>, total_count: usize) -> (r: Statistics<T>)
        ensures
            r == Self::of(moments, total_count),
    {
        Statistics {
            min_max: if moments.valid_count >= 1 {
                Some((moments.min, moments.max))
            } else {
                None
            },
            mean: if moments.valid_count >= 1 {
                Some(moments.mean)
            } else {
                None
            },
            std: if moments.valid_count >= 2 {
                Some(moments.std)
            } else {
                None
            },
            valid_count: moments.valid_count,
            total_count,
        }
    }
}

/// With no finite element every statistic is absent; with exactly one the
/// mean, minimum and maximum are present and the standard deviation is not.
pub proof fn lemma_statistics_presence<T: Copy>(moments: Moments<T>, total_count: usize)
    ensures
        moments.valid_count == 0 ==> {
            let s = Statistics::of(moments, total_count);
            s.min_max is None && s.mean is None && s.std is None && s.valid_count == 0
        },
        moments.valid_count == 1 ==> {
            let s = Statistics::of(moments, total_count);
            s.min_max is Some && s.mean is Some && s.std is None
        },
        moments.valid_count >= 2 ==> {
            let s = Statistics::of(moments, total_count);
            s.min_max is Some && s.mean is Some && s.std is Some
        },
{
}

/// Everything the reader hands over for one variable, not yet checked.
#[derive(Debug)]
pub struct RawVariable<T> {
    /// Variable name.
    pub name: String,
    /// Path of the variable inside its dataset.
    pub path: String,
    /// Declared extents, slowest dimension first.
    pub shape: Vec<usize>,
    /// Declared dimension names, parallel to `shape`.
    pub dim_names: Vec<String>,
    /// Attribute names and values, in file order.
    pub attributes: StringMap,
    /// Kind of the stored elements.
    pub kind: ElementKind,
    /// Elements in row-major order, unscaled.
    pub data: Vec<T>,
    /// Multiplier of the affine unpacking transform.
    pub scale_factor: T,
    /// Offset of the affine unpacking transform.
    pub add_offset: T,
    /// Whether the transform differs from the identity.
    pub has_scale_offset: bool,
}

/// A variable that passed every check made on loading.
#[derive(Debug)]
pub struct LoadedVariable<T> {
    name: String,
    path: String,
    shape: Vec<usize>,
    dim_names: Vec<String>,
    attributes: StringMap,
    kind: ElementKind,
    data: Vec<T>,
    scale_factor: T,
    add_offset: T,
    has_scale_offset: bool,
    statistics: Statistics<T>,
    coordinates: Vec<Option<CoordinateVar<T>>>,
}

/// Whether `raw` and `moments` describe a loadable variable.
pub open spec fn load_outcome<T>(raw: RawVariable<T>, moments: Moments<T>) -> Result<
    (),
    LoadError,
> {
    if !raw.kind.spec_is_numeric() {
        Err(LoadError::UnsupportedType)
    } else if raw.dim_names@.len() != raw.shape@.len() || shape_product(raw.shape@)
        != raw.data@.len() || moments.valid_count > raw.data@.len() {
        Err(LoadError::Corrupt)
    } else {
        Ok(())
    }
}

/// The coordinate kept for dimension `d`: the offered one when it has exactly
/// one label per position, none otherwise.
pub open spec fn kept_coordinate<T>(
    shape: Seq<usize>,
    offered: Seq<Option<CoordinateVar<T>>>,
    d: int,
) -> Option<CoordinateVar<T>> {
    if 0 <= d < offered.len() && d < shape.len() && offered[d] is Some
        && offered[d]->0.values@.len() == shape[d] {
        offered[d]
    } else {
        None
    }
}

impl<T> LoadedVariable<T> {
    #[verifier::type_invariant]
    spec fn well_formed(self) -> bool {
        &&& shape_product(self.shape@) == self.data@.len()
        &&& self.dim_names@.len() == self.shape@.len()
        &&& self.coordinates@.len() == self.shape@.len()
        &&& forall|d: int|
            0 <= d < self.shape@.len() && (#[trigger] self.coordinates@[d]) is Some
                ==> self.coordinates@[d]->0.values@.len() == self.shape@[d]
        &&& self.statistics.valid_count <= self.data@.len()
        &&& self.statistics.total_count == self.data@.len()
        &&& self.kind.spec_is_numeric()
    }

    /// Extents of the variable, slowest dimension first.
    pub closed spec fn dims(&self) -> Seq<usize> {
        self.shape@
    }

    /// Elements of the variable in row-major order.
    pub closed spec fn elements(&self) -> Seq<T> {
        self.data@
    }

    /// Coordinates of the variable, one entry per dimension.
    pub closed spec fn coords(&self) -> Seq<Option<CoordinateVar<T>>> {
        self.coordinates@
    }

    /// Statistics stored with the variable.
    pub closed spec fn stats(&self) -> Statistics<T> {
        self.statistics
    }

    /// Whether the variable carries a scale/offset transform other than the identity.
    pub closed spec fn can_scale(&self) -> bool {
        self.has_scale_offset
    }

    /// Name, path, dimension names, attributes, element kind, multiplier
    /// and offset of the variable, as they were handed over.
    pub closed spec fn described(&self) -> RawVariable<T> {
        RawVariable {
            name: self.name,
            path: self.path,
            shape: self.shape,
            dim_names: self.dim_names,
            attributes: self.attributes,
            kind: self.kind,
            data: self.data,
            scale_factor: self.scale_factor,
            add_offset: self.add_offset,
            has_scale_offset: self.has_scale_offset,
        }
    }

    /// Element named by an index vector.
    pub open spec fn element_at(&self, indices: Seq<usize>) -> T {
        self.elements()[linear_index(self.dims(), indices) as int]
    }
}

impl<T: Copy> LoadedVariable<T> {

    /// Checks what the reader handed over and assembles the variable.
    ///
    /// Fails with `UnsupportedType` when the elements are not numeric, and
    /// with `Corrupt` when the dimension names do not match the extents, the
    /// element count is not the product of the extents, or more finite
    /// elements were counted than there are elements. A coordinate with the
    /// wrong number of labels is dropped without failing the load.
    pub fn load(
        raw: RawVariable<T>,
        moments: Moments<T>,
        coordinates: Vec<Option<CoordinateVar<T>>>,
    ) -> (r: Result<LoadedVariable<T>, LoadError>)
        ensures
            match r {
                Ok(v) => {
                    &&& load_outcome(raw, moments) is Ok
                    &&& v.dims() == raw.shape@
                    &&& v.elements() == raw.data@
                    &&& v.stats() == Statistics::of(moments, raw.data.len())
                    &&& v.can_scale() == raw.has_scale_offset
                    &&& v.described() == raw
                    &&& v.coords().len() == raw.shape@.len()
                    &&& forall|d: int|
                        0 <= d < raw.shape@.len() ==> #[trigger] v.coords()[d] == kept_coordinate(
                            raw.shape@,
                            coordinates@,
                            d,
                        )
                },
                Err(e) => load_outcome(raw, moments) == Err::<(), LoadError>(e),
            },
    {
        if !raw.kind.is_numeric() {
            return Err(LoadError::UnsupportedType);
        }
        if raw.dim_names.len() != raw.shape.len() {
            return Err(LoadError::Corrupt);
        }
        match checked_product(&raw.shape) {
            Some(n) => {
                if n != raw.data.len() {
                    return Err(LoadError::Corrupt);
                }
            },
            None => {
                return Err(LoadError::Corrupt);
            },
        }
        if moments.valid_count > raw.data.len() {
            return Err(LoadError::Corrupt);
        }
        let ndim = raw.shape.len();
        let mut offered = coordinates;
        let mut kept: Vec<Option<CoordinateVar<T>>> = Vec::new();
        let mut d: usize = ndim;
        // Coordinates are moved out from the back so that none is copied.
        let ghost given = offered@;
        offered.truncate(ndim);
        let mut tail: Vec<Option<CoordinateVar<T>>> = Vec::new();
        while d > 0
            invariant
                d <= ndim,
                ndim == raw.shape@.len(),
                offered@.len() == if given.len() < d {
                    given.len()
                } else {
                    d as nat
                },
                forall|j: int| 0 <= j < offered@.len() ==> offered@[j] == given[j],
                tail@.len() == ndim - d,
                forall|j: int|
                    0 <= j < tail@.len() ==> #[trigger] tail@[j] == kept_coordinate(
                        raw.shape@,
                        given,
                        ndim - 1 - j,
                    ),
            decreases d,
        {
            d -= 1;
            let extent = raw.shape[d];
            if offered.len() > d {
                let candidate = offered.pop().unwrap();
                let keep = match &candidate {
                    Some(c) => c.values.len() == extent,
                    None => false,
                };
                if keep {
                    tail.push(candidate);
                } else {
                    tail.push(None);
                }
            } else {
                tail.push(None);
            }
        }
        while tail.len() > 0
            invariant
                ndim == raw.shape@.len(),
                kept@.len() + tail@.len() == ndim,
                forall|j: int|
                    0 <= j < tail@.len() ==> #[trigger] tail@[j] == kept_coordinate(
                        raw.shape@,
                        given,
                        ndim - 1 - j,
                    ),
                forall|j: int|
                    0 <= j < kept@.len() ==> #[trigger] kept@[j] == kept_coordinate(
                        raw.shape@,
                        given,
                        j,
                    ),
            decreases tail.len(),
        {
            let c = tail.pop().unwrap();
            kept.push(c);
        }
        let statistics = Statistics::summarize(moments, raw.data.len());
        Ok(
            LoadedVariable {
                name: raw.name,
                path: raw.path,
                shape: raw.shape,
                dim_names: raw.dim_names,
                attributes: raw.attributes,
                kind: raw.kind,
                data: raw.data,
                scale_factor: raw.scale_factor,
                add_offset: raw.add_offset,
                has_scale_offset: raw.has_scale_offset,
                statistics,
                coordinates: kept,
            },
        )
    }

    /// Variable name.
    pub fn name(&self) -> (r: &String)
        ensures
            *r == self.described().name,
    {
        &self.name
    }

    /// Path of the variable inside its dataset.
    pub fn path(&self) -> (r: &String)
        ensures
            *r == self.described().path,
    {
        &self.path
    }

    /// Extents, slowest dimension first.
    pub fn shape(&self) -> (r: &Vec<usize>)
        ensures
            r@ == self.dims(),
    {
        &self.shape
    }

    /// Dimension names, parallel to the extents.
    pub fn dim_names(&self) -> (r: &Vec<String>)
        ensures
            *r == self.described().dim_names,
            r@.len() == self.dims().len(),
    {
        proof {
            use_type_invariant(self);
        }
        &self.dim_names
    }

    /// Attribute names and values, in file order.
    pub fn attributes(&self) -> (r: &StringMap)
        ensures
            *r == self.described().attributes,
    {
        &self.attributes
    }

    /// Kind of the stored elements.
    pub fn kind(&self) -> (r: ElementKind)
        ensures
            r == self.described().kind,
            r.spec_is_numeric(),
    {
        proof {
            use_type_invariant(self);
        }
        self.kind
    }

    /// Elements in row-major order, unscaled.
    pub fn data(&self) -> (r: &Vec<T>)
        ensures
            r@ == self.elements(),
    {
        &self.data
    }

    /// Multiplier of the affine unpacking transform.
    pub fn scale_factor(&self) -> (r: T)
        ensures
            r == self.described().scale_factor,
    {
        self.scale_factor
    }

    /// Offset of the affine unpacking transform.
    pub fn add_offset(&self) -> (r: T)
        ensures
            r == self.described().add_offset,
    {
        self.add_offset
    }

    /// Whether the unpacking transform differs from the identity.
    pub fn has_scale_offset(&self) -> (r: bool)
        ensures
            r == self.can_scale(),
    {
        self.has_scale_offset
    }

    /// Statistics stored with the variable.
    pub fn statistics(&self) -> (r: Statistics<T>)
        ensures
            r == self.stats(),
    {
        self.statistics
    }

    /// Number of dimensions.
    pub fn ndim(&self) -> (r: usize)
        ensures
            r == self.dims().len(),
    {
        self.shape.len()
    }

    /// Number of elements.
    pub fn total_elements(&self) -> (r: usize)
        ensures
            r == shape_product(self.dims()),
            r == self.elements().len(),
    {
        proof {
            use_type_invariant(self);
        }
        self.data.len()
    }

    /// Axis labels of dimension `dim`, if the variable has any.
    pub fn get_coordinate(&self, dim: usize) -> (r: Option<&CoordinateVar<T>>)
        ensures
            match r {
                Some(c) => dim < self.dims().len() && self.coords()[dim as int] == Some(*c),
                None => dim >= self.dims().len() || self.coords()[dim as int] is None,
            },
    {
        proof {
            use_type_invariant(self);
        }
        if dim < self.coordinates.len() {
            self.coordinates[dim].as_ref()
        } else {
            None
        }
    }

    /// Label at position `index` of dimension `dim`, if there is one.
    pub fn get_coord_value(&self, dim: usize, index: usize) -> (r: Option<T>)
        ensures
            match r {
                Some(v) => {
                    &&& dim < self.dims().len()
                    &&& index < self.dims()[dim as int]
                    &&& self.coords()[dim as int] is Some
                    &&& v == self.coords()[dim as int]->0.values@[index as int]
                },
                None => dim >= self.dims().len() || self.coords()[dim as int] is None || index
                    >= self.dims()[dim as int],
            },
    {
        proof {
            use_type_invariant(self);
        }
        match self.get_coordinate(dim) {
            Some(c) => {
                if index < c.values.len() {
                    Some(c.values[index])
                } else {
                    None
                }
            },
            None => None,
        }
    }

    /// Index vector of the element at row-major offset `linear`, taken modulo
    /// the extents. No extent may be zero.
    pub fn linear_to_indices(&self, linear: usize) -> (r: Vec<usize>)
        requires
            all_positive(self.dims()),
        ensures
            r@ == unravel(self.dims(), linear as nat),
            in_bounds(self.dims(), r@),
    {
        unravel_index(&self.shape, linear)
    }

    /// Row-major offset of the element named by `indices`.
    pub fn indices_to_linear(&self, indices: &[usize]) -> (r: usize)
        requires
            in_bounds(self.dims(), indices@),
        ensures
            r == linear_index(self.dims(), indices@),
            r < self.elements().len(),
    {
        proof {
            use_type_invariant(self);
        }
        ravel(&self.shape, indices)
    }

    /// Whether `indices` names an element of this variable.
    pub fn contains_index(&self, indices: &[usize]) -> (r: bool)
        ensures
            r == in_bounds(self.dims(), indices@),
    {
        index_in_bounds(&self.shape, indices)
    }

    /// Whether no dimension of this variable is empty.
    pub fn has_elements(&self) -> (r: bool)
        ensures
            r == all_positive(self.dims()),
    {
        extents_positive(&self.shape)
    }

    /// The element named by `indices`, or `None` when they name none.
    pub fn get_value(&self, indices: &[usize]) -> (r: Option<T>)
        ensures
            r == if in_bounds(self.dims(), indices@) {
                Some(self.element_at(indices@))
            } else {
                None
            },
    {
        if self.contains_index(indices) {
            let linear = self.indices_to_linear(indices);
            Some(self.data[linear])
        } else {
            None
        }
    }

    /// Whether every dimension other than `dim1` and `dim2` is held at a
    /// position that exists.
    pub open spec fn fixes(&self, dim1: int, dim2: int, fixed: Seq<usize>) -> bool {
        &&& fixed.len() == self.dims().len()
        &&& forall|k: int|
            0 <= k < self.dims().len() && k != dim1 && k != dim2 ==> fixed[k] < self.dims()[k]
    }

    /// Checks that every dimension other than `dim1` and `dim2` is held at a
    /// position that exists.
    pub fn can_slice(&self, dim1: usize, dim2: usize, fixed_indices: &[usize]) -> (r: bool)
        ensures
            r == (dim1 < self.dims().len() && dim2 < self.dims().len() && self.fixes(
                dim1 as int,
                dim2 as int,
                fixed_indices@,
            )),
    {
        let n = self.shape.len();
        if dim1 >= n || dim2 >= n || fixed_indices.len() != n {
            return false;
        }
        let mut k: usize = 0;
        while k < n
            invariant
                n == self.shape@.len(),
                n == fixed_indices@.len(),
                k <= n,
                forall|j: int|
                    0 <= j < k && j != dim1 && j != dim2 ==> fixed_indices@[j] < self.shape@[j],
            decreases n - k,
        {
            if k != dim1 && k != dim2 && fixed_indices[k] >= self.shape[k] {
                return false;
            }
            k += 1;
        }
        true
    }

    /// The elements along dimension `dim`, every other dimension held at its
    /// entry of `fixed_indices`. The entry for `dim` itself is ignored.
    pub fn get_1d_slice(&self, dim: usize, fixed_indices: &[usize]) -> (out: Vec<T>)
        requires
            dim < self.dims().len(),
            self.fixes(dim as int, dim as int, fixed_indices@),
        ensures
            out@.len() == self.dims()[dim as int],
            forall|i: int|
                0 <= i < out@.len() ==> #[trigger] out@[i] == self.element_at(
                    fixed_indices@.update(dim as int, i as usize),
                ),
    {
        proof {
            use_type_invariant(self);
        }
        let total = self.data.len();
        let extent = self.shape[dim];
        let mut cursor: Vec<usize> = slice_to_vec(fixed_indices);
        let mut out: Vec<T> = Vec::new();
        let mut i: usize = 0;
        while i < extent
            invariant
                i <= extent,
                extent == self.shape@[dim as int],
                dim < self.shape@.len(),
                self.fixes(dim as int, dim as int, fixed_indices@),
                shape_product(self.shape@) == total,
                total == self.data@.len(),
                cursor@.len() == fixed_indices@.len(),
                forall|k: int| 0 <= k < cursor@.len() && k != dim ==> cursor@[k] == fixed_indices@[k],
                out@.len() == i,
                forall|j: int|
                    0 <= j < i ==> #[trigger] out@[j] == self.element_at(
                        fixed_indices@.update(dim as int, j as usize),
                    ),
            decreases extent - i,
        {
            cursor.set(dim, i);
            proof {
                assert(cursor@ =~= fixed_indices@.update(dim as int, i));
            }
            let linear = ravel(&self.shape, cursor.as_slice());
            out.push(self.data[linear]);
            i += 1;
        }
        out
    }

    /// The grid spanned by dimensions `dim1` (rows) and `dim2` (columns), every
    /// other dimension held at its entry of `fixed_indices`. The entries for
    /// `dim1` and `dim2` themselves are ignored.
    pub fn get_2d_slice(&self, dim1: usize, dim2: usize, fixed_indices: &[usize]) -> (out: Vec<
        Vec<T>,
    >)
        requires
            dim1 < self.dims().len(),
            dim2 < self.dims().len(),
            self.fixes(dim1 as int, dim2 as int, fixed_indices@),
        ensures
            out@.len() == self.dims()[dim1 as int],
            forall|i: int|
                0 <= i < out@.len() ==> (#[trigger] out@[i])@.len() == self.dims()[dim2 as int],
            forall|i: int, j: int|
                0 <= i < self.dims()[dim1 as int] && 0 <= j < self.dims()[dim2 as int]
                    ==> #[trigger] out@[i]@[j] == self.element_at(
                    fixed_indices@.update(dim1 as int, i as usize).update(dim2 as int, j as usize),
                ),
    {
        proof {
            use_type_invariant(self);
        }
        let rows = self.shape[dim1];
        let cols = self.shape[dim2];
        let total = self.data.len();
        let mut cursor: Vec<usize> = slice_to_vec(fixed_indices);
        let mut out: Vec<Vec<T>> = Vec::new();
        let mut i: usize = 0;
        while i < rows
            invariant
                i <= rows,
                rows == self.shape@[dim1 as int],
                cols == self.shape@[dim2 as int],
                dim1 < self.shape@.len(),
                dim2 < self.shape@.len(),
                self.fixes(dim1 as int, dim2 as int, fixed_indices@),
                shape_product(self.shape@) == total,
                total == self.data@.len(),
                cursor@.len() == fixed_indices@.len(),
                forall|k: int|
                    0 <= k < cursor@.len() && k != dim1 && k != dim2 ==> cursor@[k]
                        == fixed_indices@[k],
                out@.len() == i,
                forall|a: int| 0 <= a < i ==> (#[trigger] out@[a])@.len() == cols,
                forall|a: int, b: int|
                    0 <= a < i && 0 <= b < cols ==> #[trigger] out@[a]@[b] == self.element_at(
                        fixed_indices@.update(dim1 as int, a as usize).update(
                            dim2 as int,
                            b as usize,
                        ),
                    ),
            decreases rows - i,
        {
            let mut row: Vec<T> = Vec::new();
            let mut j: usize = 0;
            while j < cols
                invariant
                    j <= cols,
                    i < rows,
                    rows == self.shape@[dim1 as int],
                    cols == self.shape@[dim2 as int],
                    dim1 < self.shape@.len(),
                    dim2 < self.shape@.len(),
                    self.fixes(dim1 as int, dim2 as int, fixed_indices@),
                    shape_product(self.shape@) == total,
                total == self.data@.len(),
                    cursor@.len() == fixed_indices@.len(),
                    forall|k: int|
                        0 <= k < cursor@.len() && k != dim1 && k != dim2 ==> cursor@[k]
                            == fixed_indices@[k],
                    row@.len() == j,
                    forall|b: int|
                        0 <= b < j ==> #[trigger] row@[b] == self.element_at(
                            fixed_indices@.update(dim1 as int, i as usize).update(
                                dim2 as int,
                                b as usize,
                            ),
                        ),
                decreases cols - j,
            {
                cursor.set(dim1, i);
                cursor.set(dim2, j);
                proof {
                    assert(cursor@ =~= fixed_indices@.update(dim1 as int, i).update(
                        dim2 as int,
                        j,
                    ));
                }
                let linear = ravel(&self.shape, cursor.as_slice());
                row.push(self.data[linear]);
                j += 1;
            }
            out.push(row);
            i += 1;
        }
        out
    }
}

impl<T: Copy> LoadedVariable<T> {
    /// Length of the series that a plot of this variable shows under the
    /// given display dimensions and held positions: the whole buffer below
    /// rank two; from rank two on the extent of the first display dimension,
    /// or nothing when a held position does not exist.
    pub open spec fn series_len(&self, dims: (usize, usize), held: Seq<usize>) -> nat {
        let d = dims.0 as int;
        if self.dims().len() <= 1 {
            self.elements().len()
        } else if d < self.dims().len() && self.fixes(d, d, held) {
            self.dims()[d] as nat
        } else {
            0
        }
    }

    /// Entry `i` of that series: below rank two element `i` of the buffer,
    /// from rank two on the element at position `i` of the first display
    /// dimension with every other dimension at its held position.
    pub open spec fn series_at(&self, dims: (usize, usize), held: Seq<usize>, i: int) -> T {
        if self.dims().len() <= 1 {
            self.elements()[i]
        } else {
            self.element_at(held.update(dims.0 as int, i as usize))
        }
    }

    /// Number of rows of the grid that a table or heatmap of this variable
    /// shows: one below rank two; from rank two on the extent of the row
    /// dimension, or none when a display dimension or a held position does
    /// not exist.
    pub open spec fn grid_rows(&self, dims: (usize, usize), held: Seq<usize>) -> nat {
        let r = dims.0 as int;
        let c = dims.1 as int;
        if self.dims().len() <= 1 {
            1
        } else if r < self.dims().len() && c < self.dims().len() && self.fixes(r, c, held) {
            self.dims()[r] as nat
        } else {
            0
        }
    }

    /// Number of columns of that grid: the whole buffer below rank two, the
    /// extent of the column dimension from rank two on.
    pub open spec fn grid_cols(&self, dims: (usize, usize)) -> nat {
        if self.dims().len() <= 1 {
            self.elements().len()
        } else {
            self.dims()[dims.1 as int] as nat
        }
    }

    /// Entry in row `i` and column `j` of that grid: below rank two element
    /// `j` of the buffer, from rank two on the element at position `i` of
    /// the row dimension and `j` of the column dimension with every other
    /// dimension at its held position.
    pub open spec fn grid_at(&self, dims: (usize, usize), held: Seq<usize>, i: int, j: int) -> T {
        if self.dims().len() <= 1 {
            self.elements()[j]
        } else {
            self.element_at(held.update(dims.0 as int, i as usize).update(dims.1 as int, j as usize))
        }
    }

    /// Whether `out` is the series that a plot shows: see `series_len` and
    /// `series_at`.
    pub open spec fn is_series_of(
        &self,
        dims: (usize, usize),
        held: Seq<usize>,
        out: Seq<T>,
    ) -> bool {
        &&& out.len() == self.series_len(dims, held)
        &&& forall|i: int| 0 <= i < out.len() ==> #[trigger] out[i] == self.series_at(dims, held, i)
    }

    /// Whether `out` is the grid that a table or heatmap shows: see
    /// `grid_rows`, `grid_cols` and `grid_at`.
    pub open spec fn is_grid_of(
        &self,
        dims: (usize, usize),
        held: Seq<usize>,
        out: Seq<Vec<T>>,
    ) -> bool {
        &&& out.len() == self.grid_rows(dims, held)
        &&& forall|i: int| 0 <= i < out.len() ==> (#[trigger] out[i])@.len() == self.grid_cols(dims)
        &&& forall|i: int, j: int|
            0 <= i < out.len() && 0 <= j < self.grid_cols(dims) ==> #[trigger] out[i]@[j]
                == self.grid_at(dims, held, i, j)
    }

    /// The series that a plot shows: see `is_series_of`.
    pub fn project_series(&self, slicing: &SlicingState) -> (out: Vec<T>)
        ensures
            self.is_series_of(slicing.display_dims, slicing.slice_indices@, out@),
    {
        let dim = slicing.display_dims.0;
        if self.shape.len() <= 1 {
            slice_to_vec(self.data.as_slice())
        } else if self.can_slice(dim, dim, slicing.slice_indices.as_slice()) {
            self.get_1d_slice(dim, slicing.slice_indices.as_slice())
        } else {
            Vec::new()
        }
    }

    /// The grid that a table or heatmap shows: see `is_grid_of`.
    pub fn project_grid(&self, slicing: &SlicingState) -> (out: Vec<Vec<T>>)
        ensures
            self.is_grid_of(slicing.display_dims, slicing.slice_indices@, out@),
    {
        let rows = slicing.display_dims.0;
        let cols = slicing.display_dims.1;
        if self.shape.len() <= 1 {
            let mut out: Vec<Vec<T>> = Vec::new();
            out.push(slice_to_vec(self.data.as_slice()));
            out
        } else if self.can_slice(rows, cols, slicing.slice_indices.as_slice()) {
            self.get_2d_slice(rows, cols, slicing.slice_indices.as_slice())
        } else {
            Vec::new()
        }
    }
}

} // verus!
