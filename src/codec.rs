use vstd::prelude::*;

verus! {

/// Bit pattern of `0.0f32`: the score reported when the model's output is empty.
pub const ZERO_BITS: u32 = 0;

/// The mathematical content of an input tensor: its shape and its elements
/// in row-major order.
pub struct TensorView {
    pub shape: Seq<nat>,
    pub elems: Seq<u32>,
}

impl TensorView {
    /// Element `(row, col)` of a two-dimensional tensor.
    pub open spec fn at(self, row: int, col: int) -> u32 {
        self.elems[row * self.shape[1] + col]
    }
}

/// The tensor that a feature vector becomes: one row, one column per feature,
/// values unchanged.
pub open spec fn encode_view(features: Seq<u32>) -> TensorView {
    TensorView { shape: seq![1nat, features.len()], elems: features }
}

/// The score read from a flattened output: its first element, or `0.0` when
/// the output holds none.
pub open spec fn first_or_zero(flat: Seq<u32>) -> u32 {
    if flat.len() > 0 {
        flat[0]
    } else {
        ZERO_BITS
    }
}

/// A `[1, N]` model input with `N >= 1`, stored row-major.
#[derive(Debug)]
pub struct InputTensor {
    rows: usize,
    cols: usize,
    data: Vec<u32>,
}

impl View for InputTensor {
    type V = TensorView;

    closed spec fn view(&self) -> TensorView {
        TensorView { shape: seq![self.rows as nat, self.cols as nat], elems: self.data@ }
    }
}

impl InputTensor {
    /// The tensor holds one example of at least one feature, and its element
    /// count matches its shape.
    pub closed spec fn wf(&self) -> bool {
        &&& self.rows == 1
        &&& self.cols >= 1
        &&& self.data.len() == self.cols
    }

    pub fn rows(&self) -> (r: usize)
        ensures
            r == self@.shape[0],
    {
        self.rows
    }

    pub fn cols(&self) -> (r: usize)
        ensures
            r == self@.shape[1],
    {
        self.cols
    }

    /// The elements in row-major order.
    pub fn data(&self) -> (r: &Vec<u32>)
        ensures
            r@ == self@.elems,
    {
        &self.data
    }
}

/// Why a feature vector could not be shaped into a tensor.
#[derive(Debug, PartialEq, Eq)]
pub enum EncodeError {
    /// The feature vector holds no value.
    Empty,
    /// The array library refused the shape; its reason.
    Shape(String),
}

/// Why the model's output could not be read as floats; the runtime's reason.
#[derive(Debug, PartialEq, Eq)]
pub struct OutputTypeError(pub String);

/// What the model handed back, as far as the score is concerned.
pub enum RawOutput {
    /// Its elements, flattened in row-major order.
    Floats(Vec<u32>),
    /// Its elements are not floats or cannot be read as one flat slice; the
    /// runtime's reason.
    Unreadable(String),
}

/// Relies on `ndarray::Array2::from_shape_vec` with shape `(1, n)`: a vector of
/// `n` elements always fits that shape, the array keeps the vector as its
/// storage, and `into_raw_vec_and_offset` hands that vector back.
#[verifier::external_body]
fn single_row(v: Vec<u32>) -> (r: Result<(usize, usize, Vec<u32>), String>)
    ensures
        r is Ok,
        r->Ok_0.0 == 1,
        r->Ok_0.1 == v.len(),
        r->Ok_0.2@ == v@,
{
    let n = v.len();
    ndarray::Array2::from_shape_vec((1, n), v)
        .map(|a| {
            let (rows, cols) = a.dim();
            (rows, cols, a.into_raw_vec_and_offset().0)
        })
        .map_err(|e| e.to_string())
}

/// Shapes a feature vector as a `[1, N]` tensor without changing any value.
pub fn to_input_tensor(features: Vec<u32>) -> (r: Result<InputTensor, EncodeError>)
    ensures
        features.len() == 0 <==> r == Err::<InputTensor, EncodeError>(EncodeError::Empty),
        features.len() > 0 ==> (r matches Ok(t) && t.wf() && t@ == encode_view(features@)),
{
    if features.len() == 0 {
        return Err(EncodeError::Empty);
    }
    match single_row(features) {
        Ok((rows, cols, data)) => Ok(InputTensor { rows, cols, data }),
        Err(reason) => Err(EncodeError::Shape(reason)),
    }
}

/// Reads the score out of the model's output: the first element, `0.0` when
/// there is none, an error when the output is not readable as floats.
pub fn extract_scalar(output: &RawOutput) -> (r: Result<u32, OutputTypeError>)
    ensures
        match *output {
            RawOutput::Floats(flat) => r == Ok::<u32, OutputTypeError>(first_or_zero(flat@)),
            RawOutput::Unreadable(reason) => r == Err::<u32, OutputTypeError>(OutputTypeError(reason)),
        },
{
    match output {
        RawOutput::Floats(flat) => {
            if flat.len() > 0 {
                Ok(flat[0])
            } else {
                Ok(ZERO_BITS)
            }
        },
        RawOutput::Unreadable(reason) => Err(OutputTypeError(reason.clone())),
    }
}

} // verus!
