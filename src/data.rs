//! Models and labelled examples as read from whitespace-separated numbers.
use vstd::prelude::*;

verus! {

/// Weights and bias of the unit, as single-precision bit patterns.
#[derive(Clone, Copy, Debug, PartialEq, Eq, Structural)]
pub struct Model {
    pub w1: u32,
    pub w2: u32,
    pub bias: u32,
}

/// Two inputs and a label, as single-precision bit patterns.
#[derive(Clone, Copy, Debug, PartialEq, Eq, Structural)]
pub struct Example {
    pub x1: u32,
    pub x2: u32,
    pub y: u32,
}

/// A model is written as exactly three numbers: `w1 w2 bias`.
pub fn model_from_fields(fields: &Vec<u32>) -> (r: Option<Model>)
    ensures
        fields.len() == 3 <==> r is Some,
        fields.len() == 3 ==> r == Some(Model { w1: fields@[0], w2: fields@[1], bias: fields@[2] }),
{
    if fields.len() == 3 {
        Some(Model { w1: fields[0], w2: fields[1], bias: fields[2] })
    } else {
        None
    }
}

pub open spec fn example_of(row: Seq<u32>) -> Example {
    Example { x1: row[0], x2: row[1], y: row[2] }
}

/// A dataset is one example per line, each line exactly three numbers
/// `x1 x2 label`; the order of the lines is kept. Gives the index of the
/// first line that is not three numbers where there is one.
pub fn examples_from_rows(rows: &Vec<Vec<u32>>) -> (r: Result<Vec<Example>, usize>)
    ensures
        r matches Ok(v) ==> {
            &&& forall|i: int| 0 <= i < rows.len() ==> #[trigger] rows@[i]@.len() == 3
            &&& v@.len() == rows.len()
            &&& forall|i: int| 0 <= i < rows.len() ==> #[trigger] v@[i] == example_of(rows@[i]@)
        },
        r matches Err(k) ==> {
            &&& k < rows.len()
            &&& rows@[k as int]@.len() != 3
            &&& forall|i: int| 0 <= i < k ==> #[trigger] rows@[i]@.len() == 3
        },
{
    let mut out: Vec<Example> = Vec::new();
    let mut i: usize = 0;
    while i < rows.len()
        invariant
            i <= rows.len(),
            out@.len() == i,
            forall|j: int| 0 <= j < i ==> #[trigger] rows@[j]@.len() == 3,
            forall|j: int| 0 <= j < i ==> #[trigger] out@[j] == example_of(rows@[j]@),
        decreases rows.len() - i,
    {
        let row = &rows[i];
        if row.len() != 3 {
            return Err(i);
        }
        out.push(Example { x1: row[0], x2: row[1], y: row[2] });
        i = i + 1;
    }
    Ok(out)
}

} // verus!
