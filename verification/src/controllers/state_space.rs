//! The state space model of the telescope structure.
//!
//! A [`DiscreteStateSpace`] collects what the model is made from: the finite
//! element model, the sampling rate, the signals that enter and leave it, and
//! the optional adjustments of the modes. Its `build` projects the finite
//! element model onto the selected signals and hands out one [`Mode`] per
//! eigen mode. The modes that are kept are discretized outside of this
//! library, which never computes on a sample, and come back as the solvers of
//! a [`DiscreteModalSolver`], the engine that is stepped during a simulation.

use crate::error::DOSError;
use crate::fem::{indices_within, on_indices, ports_within, FemPort, FEM};
use crate::io::Tags;
use crate::samples::{copied, filled};
use crate::IOTags;
use vstd::prelude::*;
use vstd::string::StringExecFns;

pub mod engine;
pub mod laws;
pub mod modes;

pub use engine::DiscreteModalSolver;

verus! {

/// The number of scalars that a list of signal widths covers.
pub open spec fn total(sizes: Seq<usize>) -> nat
    decreases sizes.len(),
{
    if sizes.len() == 0 {
        0
    } else {
        total(sizes.drop_last()) + sizes.last() as nat
    }
}

/// The scalar indices that a list of signals selects among the ports of one
/// side of the model: those of each signal in turn, in declaration order.
pub open spec fn selection(tags: Seq<Tags>, ports: Seq<Option<FemPort>>, output: bool) -> Seq<u32>
    decreases tags.len(),
{
    if tags.len() == 0 {
        Seq::empty()
    } else {
        selection(tags.drop_last(), ports, output) + match tags.last().port_indices_from(
            ports,
            0,
            output,
        ) {
            Some(indices) => indices,
            None => Seq::empty(),
        }
    }
}

/// The width of a signal: the number of scalar indices that it selects.
pub open spec fn width(tag: Tags, ports: Seq<Option<FemPort>>, output: bool) -> nat {
    match tag.port_indices_from(ports, 0, output) {
        Some(indices) => indices.len(),
        None => 0,
    }
}

/// The sizes are the widths of the signals, one for one.
pub open spec fn are_widths(
    sizes: Seq<usize>,
    tags: Seq<Tags>,
    ports: Seq<Option<FemPort>>,
    output: bool,
) -> bool {
    &&& sizes.len() == tags.len()
    &&& forall|i: int| 0 <= i < tags.len() ==> #[trigger] sizes[i] == width(tags[i], ports, output)
}

/// The first signal of the list, from position `from` on, that no port of the
/// model is matched to.
pub open spec fn first_unmatched_from(
    tags: Seq<Tags>,
    ports: Seq<Option<FemPort>>,
    output: bool,
    from: int,
) -> Option<Tags>
    decreases tags.len() - from,
{
    if from < 0 || from >= tags.len() {
        None
    } else if tags[from].port_indices_from(ports, 0, output) is None {
        Some(tags[from])
    } else {
        first_unmatched_from(tags, ports, output, from + 1)
    }
}

/// The first signal of the list that no port of the model is matched to.
pub open spec fn first_unmatched(tags: Seq<Tags>, ports: Seq<Option<FemPort>>, output: bool) -> Option<
    Tags,
> {
    first_unmatched_from(tags, ports, output, 0)
}

pub(crate) proof fn lemma_total_push(sizes: Seq<usize>, n: usize)
    ensures
        total(sizes.push(n)) == total(sizes) + n,
{
    assert(sizes.push(n).drop_last() =~= sizes);
}

proof fn lemma_selection_push(
    tags: Seq<Tags>,
    tag: Tags,
    ports: Seq<Option<FemPort>>,
    output: bool,
)
    ensures
        selection(tags.push(tag), ports, output) == selection(tags, ports, output) + match tag.port_indices_from(
            ports,
            0,
            output,
        ) {
            Some(indices) => indices,
            None => Seq::empty(),
        },
{
    assert(tags.push(tag).drop_last() =~= tags);
}

/// What a port hands out lies within the bound that holds of all ports.
pub proof fn lemma_port_indices_within(
    tag: Tags,
    ports: Seq<Option<FemPort>>,
    from: int,
    output: bool,
    bound: int,
)
    requires
        ports_within(ports, bound),
        0 <= from,
    ensures
        tag.port_indices_from(ports, from, output) matches Some(indices) ==> indices_within(
            indices,
            bound,
        ),
    decreases ports.len() - from,
{
    if from < ports.len() {
        if ports[from] matches Some(port) && tag.matches_port(port, output) {
        } else {
            lemma_port_indices_within(tag, ports, from + 1, output, bound);
        }
    }
}

/// The selection of the signals among the ports of one side of the model,
/// with the width of each signal; or the first signal that matches nothing.
pub fn select(tags: &Vec<Tags>, ports: &Vec<Option<FemPort>>, output: bool) -> (r: Result<
    (Vec<u32>, Vec<usize>),
    Tags,
>)
    ensures
        match r {
            Ok((indices, sizes)) => {
                &&& first_unmatched(tags@, ports@, output) is None
                &&& indices@ == selection(tags@, ports@, output)
                &&& are_widths(sizes@, tags@, ports@, output)
                &&& total(sizes@) == indices@.len()
            },
            Err(tag) => first_unmatched(tags@, ports@, output) == Some(tag),
        },
{
    let mut indices: Vec<u32> = Vec::new();
    let mut sizes: Vec<usize> = Vec::new();
    let mut i: usize = 0;
    while i < tags.len()
        invariant
            i <= tags.len(),
            first_unmatched(tags@, ports@, output) == first_unmatched_from(
                tags@,
                ports@,
                output,
                i as int,
            ),
            indices@ == selection(tags@.take(i as int), ports@, output),
            are_widths(sizes@, tags@.take(i as int), ports@, output),
            total(sizes@) == indices@.len(),
        decreases tags.len() - i,
    {
        let tag = tags[i];
        match tag.find_port(ports, output) {
            Some(found) => {
                proof {
                    lemma_selection_push(tags@.take(i as int), tag, ports@, output);
                    lemma_total_push(sizes@, found.len());
                    assert(tags@.take(i as int).push(tag) =~= tags@.take(i as int + 1));
                }
                let ghost before = indices@;
                let mut j: usize = 0;
                while j < found.len()
                    invariant
                        j <= found.len(),
                        indices@ == before + found@.take(j as int),
                    decreases found.len() - j,
                {
                    indices.push(found[j]);
                    j += 1;
                    proof {
                        assert(found@.take(j as int) =~= found@.take(j as int - 1).push(
                            found@[j as int - 1],
                        ));
                        assert(indices@ =~= before + found@.take(j as int));
                    }
                }
                proof {
                    assert(found@.take(found.len() as int) =~= found@);
                }
                sizes.push(found.len());
            },
            None => {
                return Err(tag);
            },
        }
        i += 1;
    }
    proof {
        assert(tags@.take(tags.len() as int) =~= tags@);
    }
    Ok((indices, sizes))
}

/// Some signal of the list is matched to the port.
pub open spec fn selected(tags: Seq<Tags>, port: FemPort, output: bool) -> bool {
    exists|i: int| 0 <= i < tags.len() && (#[trigger] tags[i]).matches_port(port, output)
}

/// The ports of one side of the model that stay when the model is reduced to
/// the signals of the list: a port stays where some signal is matched to it.
pub open spec fn retained_ports(ports: Seq<Option<FemPort>>, tags: Seq<Tags>, output: bool) -> Seq<
    Option<FemPort>,
> {
    Seq::new(
        ports.len(),
        |k: int|
            if ports[k] matches Some(port) && selected(tags, port, output) {
                ports[k]
            } else {
                None
            },
    )
}

/// Reducing the model to a list of signals changes nothing of what a signal
/// of that list selects.
pub proof fn lemma_retained_ports_match(
    tag: Tags,
    tags: Seq<Tags>,
    ports: Seq<Option<FemPort>>,
    output: bool,
    from: int,
)
    requires
        tags.contains(tag),
        0 <= from,
    ensures
        tag.port_indices_from(retained_ports(ports, tags, output), from, output)
            == tag.port_indices_from(ports, from, output),
    decreases ports.len() - from,
{
    let reduced = retained_ports(ports, tags, output);
    if from < ports.len() {
        if ports[from] matches Some(port) && tag.matches_port(port, output) {
            let i = choose|i: int| 0 <= i < tags.len() && tags[i] == tag;
            assert(tags[i].matches_port(ports[from]->0, output));
            assert(reduced[from] == ports[from]);
        } else {
            assert(reduced[from] == ports[from] || reduced[from] is None);
            lemma_retained_ports_match(tag, tags, ports, output, from + 1);
        }
    }
}

/// Reducing the model to a list of signals changes neither what the list
/// selects, nor which of its signals is the first to match nothing.
pub proof fn lemma_retained_ports_selection(
    tags: Seq<Tags>,
    all: Seq<Tags>,
    ports: Seq<Option<FemPort>>,
    output: bool,
)
    requires
        forall|i: int| 0 <= i < tags.len() ==> all.contains(#[trigger] tags[i]),
    ensures
        selection(tags, retained_ports(ports, all, output), output) == selection(
            tags,
            ports,
            output,
        ),
        forall|from: int|
            0 <= from ==> first_unmatched_from(
                tags,
                retained_ports(ports, all, output),
                output,
                from,
            ) == #[trigger] first_unmatched_from(tags, ports, output, from),
        forall|i: int|
            0 <= i < tags.len() ==> width(
                #[trigger] tags[i],
                retained_ports(ports, all, output),
                output,
            ) == width(tags[i], ports, output),
    decreases tags.len(),
{
    let reduced = retained_ports(ports, all, output);
    assert forall|i: int| 0 <= i < tags.len() implies (#[trigger] tags[i]).port_indices_from(
        reduced,
        0,
        output,
    ) == tags[i].port_indices_from(ports, 0, output) by {
        lemma_retained_ports_match(tags[i], all, ports, output, 0);
    }
    if tags.len() > 0 {
        let head = tags.drop_last();
        assert forall|i: int| 0 <= i < head.len() implies all.contains(#[trigger] head[i]) by {
            assert(head[i] == tags[i]);
        }
        lemma_retained_ports_selection(head, all, ports, output);
        assert(tags.last() == tags[tags.len() - 1]);
    }
    assert forall|from: int| 0 <= from implies first_unmatched_from(tags, reduced, output, from)
        == #[trigger] first_unmatched_from(tags, ports, output, from) by {
        lemma_first_unmatched_same(tags, reduced, ports, output, from);
    }
}

proof fn lemma_first_unmatched_same(
    tags: Seq<Tags>,
    a: Seq<Option<FemPort>>,
    b: Seq<Option<FemPort>>,
    output: bool,
    from: int,
)
    requires
        0 <= from,
        forall|i: int|
            0 <= i < tags.len() ==> (#[trigger] tags[i]).port_indices_from(a, 0, output)
                == tags[i].port_indices_from(b, 0, output),
    ensures
        first_unmatched_from(tags, a, output, from) == first_unmatched_from(tags, b, output, from),
    decreases tags.len() - from,
{
    if from < tags.len() {
        lemma_first_unmatched_same(tags, a, b, output, from + 1);
    }
}

/// The positions of the ports that some signal of the list is matched to.
fn matched_positions(ports: &Vec<Option<FemPort>>, tags: &Vec<Tags>, output: bool) -> (id: Vec<
    usize,
>)
    ensures
        crate::fem::kept(ports@, id@) == retained_ports(ports@, tags@, output),
{
    let mut id: Vec<usize> = Vec::new();
    let mut k: usize = 0;
    while k < ports.len()
        invariant
            k <= ports.len(),
            forall|j: int| 0 <= j < id@.len() ==> id@[j] < k,
            forall|j: int|
                0 <= j < k ==> (id@.contains(j as usize) <==> (#[trigger] ports@[j] matches Some(
                    port,
                ) && selected(tags@, port, output))),
        decreases ports.len() - k,
    {
        let mut found = false;
        if let Some(port) = &ports[k] {
            let mut i: usize = 0;
            while i < tags.len() && !found
                invariant
                    i <= tags.len(),
                    ports@[k as int] == Some(*port),
                    found ==> selected(tags@, *port, output),
                    !found ==> forall|j: int|
                        0 <= j < i ==> !(#[trigger] tags@[j]).matches_port(*port, output),
                decreases tags.len() - i,
            {
                if tags[i].is_matched_to(port, output) {
                    found = true;
                }
                i += 1;
            }
        }
        let ghost before = id@;
        if found {
            id.push(k);
            proof {
                assert(id@.last() == k);
                assert forall|j: int| 0 <= j < k + 1 implies (id@.contains(j as usize) <==> (
                #[trigger] ports@[j] matches Some(port) && selected(tags@, port, output))) by {
                    if j < k {
                        if before.contains(j as usize) {
                            let w = choose|w: int| 0 <= w < before.len() && before[w] == j as usize;
                            assert(id@[w] == j as usize);
                        }
                        if id@.contains(j as usize) {
                            let w = choose|w: int| 0 <= w < id@.len() && id@[w] == j as usize;
                            assert(w < before.len());
                            assert(before[w] == j as usize);
                        }
                    } else {
                        assert(id@[id@.len() - 1] == j as usize);
                    }
                }
            }
        } else {
            proof {
                assert(!id@.contains(k));
            }
        }
        k += 1;
    }
    proof {
        assert(crate::fem::kept(ports@, id@) =~= retained_ports(ports@, tags@, output));
    }
    id
}

/// What can fail in the assembly of a state space model.
#[derive(Debug)]
pub enum StateSpaceError {
    /// No input of the finite element model is matched to the signal.
    FemInputs(Tags),
    /// No output of the finite element model is matched to the signal.
    FemOutputs(Tags),
    /// The named argument was not given to the builder.
    MissingArguments(String),
}

/// Reduces the model to the selected signals: the inputs and outputs that no
/// selected signal is matched to leave the model.
pub fn select_fem_io<T>(fem: &mut FEM<T>, dos_inputs: &Vec<Tags>, dos_outputs: &Vec<Tags>)
    ensures
        final(fem).inputs@ == retained_ports(old(fem).inputs@, dos_inputs@, false),
        final(fem).outputs@ == retained_ports(old(fem).outputs@, dos_outputs@, true),
        final(fem).eigen_frequencies == old(fem).eigen_frequencies,
        final(fem).inputs_to_modal_forces == old(fem).inputs_to_modal_forces,
        final(fem).modal_disp_to_outputs == old(fem).modal_disp_to_outputs,
        final(fem).proportional_damping_vec == old(fem).proportional_damping_vec,
        old(fem).wf() ==> final(fem).wf(),
{
    let inputs_idx = matched_positions(&fem.inputs, dos_inputs, false);
    let outputs_idx = matched_positions(&fem.outputs, dos_outputs, true);
    fem.keep_inputs(&inputs_idx);
    fem.keep_outputs(&outputs_idx);
    proof {
        if old(fem).wf() {
            assert(ports_within(fem.inputs@, fem.n_input_indices()));
            assert(ports_within(fem.outputs@, fem.n_output_indices()));
        }
    }
}

/// Row `k` of a matrix of `cols` columns, held row by row, at the columns
/// that the 1-based `indices` name.
pub open spec fn gather_row<T>(m: Seq<T>, cols: int, indices: Seq<u32>, k: int) -> Seq<T> {
    Seq::new(indices.len(), |j: int| m[k * cols + indices[j] - 1])
}

/// Column `k` of a matrix of `cols` columns, held row by row, at the rows
/// that the 1-based `indices` name.
pub open spec fn gather_column<T>(m: Seq<T>, cols: int, indices: Seq<u32>, k: int) -> Seq<T> {
    Seq::new(indices.len(), |j: int| m[(indices[j] - 1) * cols + k])
}

proof fn lemma_cell(r: int, c: int, rows: int, cols: int)
    by (nonlinear_arith)
    requires
        0 <= r < rows,
        0 <= c < cols,
    ensures
        0 <= r * cols,
        0 <= r * cols + c < rows * cols,
{
}

/// What a list of signals selects lies within the bound that holds of all ports.
pub proof fn lemma_selection_within(
    tags: Seq<Tags>,
    ports: Seq<Option<FemPort>>,
    output: bool,
    bound: int,
)
    requires
        ports_within(ports, bound),
    ensures
        indices_within(selection(tags, ports, output), bound),
    decreases tags.len(),
{
    if tags.len() > 0 {
        lemma_selection_within(tags.drop_last(), ports, output, bound);
        lemma_port_indices_within(tags.last(), ports, 0, output, bound);
    }
}

fn row_at<T: Copy>(m: &Vec<T>, rows: usize, cols: usize, indices: &Vec<u32>, k: usize) -> (r: Vec<
    T,
>)
    requires
        m@.len() == rows * cols,
        k < rows,
        indices_within(indices@, cols as int),
    ensures
        r@ == gather_row(m@, cols as int, indices@, k as int),
{
    let mut r: Vec<T> = Vec::new();
    let mut j: usize = 0;
    while j < indices.len()
        invariant
            j <= indices.len(),
            m@.len() == rows * cols,
            k < rows,
            indices_within(indices@, cols as int),
            r@.len() == j,
            forall|i: int| 0 <= i < j ==> r@[i] == m@[k * cols + indices@[i] - 1],
        decreases indices.len() - j,
    {
        assert(1 <= indices@[j as int] <= cols);
        let c: usize = indices[j] as usize - 1;
        proof {
            lemma_cell(k as int, c as int, rows as int, cols as int);
            assert(0 <= k * cols <= k * cols + c < m.len());
        }
        r.push(m[k * cols + c]);
        j += 1;
    }
    proof {
        assert(r@ =~= gather_row(m@, cols as int, indices@, k as int));
    }
    r
}

fn column_at<T: Copy>(m: &Vec<T>, rows: usize, cols: usize, indices: &Vec<u32>, k: usize) -> (r:
    Vec<T>)
    requires
        m@.len() == rows * cols,
        k < cols,
        indices_within(indices@, rows as int),
    ensures
        r@ == gather_column(m@, cols as int, indices@, k as int),
{
    let mut r: Vec<T> = Vec::new();
    let mut j: usize = 0;
    while j < indices.len()
        invariant
            j <= indices.len(),
            m@.len() == rows * cols,
            k < cols,
            indices_within(indices@, rows as int),
            r@.len() == j,
            forall|i: int| 0 <= i < j ==> r@[i] == m@[(indices@[i] - 1) * cols + k],
        decreases indices.len() - j,
    {
        assert(1 <= indices@[j as int] <= rows);
        let row: usize = indices[j] as usize - 1;
        proof {
            lemma_cell(row as int, k as int, rows as int, cols as int);
            assert(0 <= row * cols <= row * cols + k < m.len());
        }
        r.push(m[row * cols + k]);
        j += 1;
    }
    proof {
        assert(r@ =~= gather_column(m@, cols as int, indices@, k as int));
    }
    r
}

/// Projects the inputs to modal forces matrix onto the selected inputs: for
/// each mode the row of the matrix at the columns that the signals select, in
/// declaration order; and the width of each signal. It fails on the first
/// signal that no input of the model is matched to.
pub fn io2modes<T: Copy>(fem: &FEM<T>, dos_inputs: &Vec<Tags>) -> (r: Result<
    (Vec<Vec<T>>, Vec<usize>),
    DOSError<StateSpaceError>,
>)
    requires
        fem.wf(),
    ensures
        match r {
            Ok((rows, sizes)) => {
                &&& first_unmatched(dos_inputs@, fem.inputs@, false) is None
                &&& are_widths(sizes@, dos_inputs@, fem.inputs@, false)
                &&& total(sizes@) == selection(dos_inputs@, fem.inputs@, false).len()
                &&& total(sizes@) <= usize::MAX
                &&& rows@.len() == fem.spec_n_modes()
                &&& forall|k: int|
                    0 <= k < rows@.len() ==> (#[trigger] rows@[k])@ == gather_row(
                        fem.inputs_to_modal_forces@,
                        fem.n_input_indices(),
                        selection(dos_inputs@, fem.inputs@, false),
                        k,
                    )
            },
            Err(e) => first_unmatched(dos_inputs@, fem.inputs@, false) matches Some(tag) && e
                == DOSError::Component(StateSpaceError::FemInputs(tag)),
        },
{
    let (indices, sizes) = match select(dos_inputs, &fem.inputs, false) {
        Ok(found) => found,
        Err(tag) => {
            return Err(DOSError::Component(StateSpaceError::FemInputs(tag)));
        },
    };
    let n = fem.n_modes();
    let cols: usize = if n == 0 {
        0
    } else {
        fem.inputs_to_modal_forces.len() / n
    };
    proof {
        lemma_selection_within(dos_inputs@, fem.inputs@, false, fem.n_input_indices());
    }
    let mut rows: Vec<Vec<T>> = Vec::new();
    let mut k: usize = 0;
    while k < n
        invariant
            k <= n,
            n == fem.spec_n_modes(),
            cols == fem.n_input_indices(),
            fem.inputs_to_modal_forces@.len() == n * cols,
            indices_within(indices@, cols as int),
            rows@.len() == k,
            forall|i: int|
                0 <= i < k ==> (#[trigger] rows@[i])@ == gather_row(
                    fem.inputs_to_modal_forces@,
                    cols as int,
                    indices@,
                    i,
                ),
        decreases n - k,
    {
        let row = row_at(&fem.inputs_to_modal_forces, n, cols, &indices, k);
        rows.push(row);
        k += 1;
    }
    assert(total(sizes@) == indices.len());
    Ok((rows, sizes))
}

/// Projects the modal displacements to outputs matrix onto the selected
/// outputs: for each mode the column of the matrix at the rows that the
/// signals select, in declaration order; and the width of each signal. It
/// fails on the first signal that no output of the model is matched to.
pub fn modes2io<T: Copy>(fem: &FEM<T>, dos_outputs: &Vec<Tags>) -> (r: Result<
    (Vec<Vec<T>>, Vec<usize>),
    DOSError<StateSpaceError>,
>)
    requires
        fem.wf(),
    ensures
        match r {
            Ok((columns, sizes)) => {
                &&& first_unmatched(dos_outputs@, fem.outputs@, true) is None
                &&& are_widths(sizes@, dos_outputs@, fem.outputs@, true)
                &&& total(sizes@) == selection(dos_outputs@, fem.outputs@, true).len()
                &&& total(sizes@) <= usize::MAX
                &&& columns@.len() == fem.spec_n_modes()
                &&& forall|k: int|
                    0 <= k < columns@.len() ==> (#[trigger] columns@[k])@ == gather_column(
                        fem.modal_disp_to_outputs@,
                        fem.spec_n_modes() as int,
                        selection(dos_outputs@, fem.outputs@, true),
                        k,
                    )
            },
            Err(e) => first_unmatched(dos_outputs@, fem.outputs@, true) matches Some(tag) && e
                == DOSError::Component(StateSpaceError::FemOutputs(tag)),
        },
{
    let (indices, sizes) = match select(dos_outputs, &fem.outputs, true) {
        Ok(found) => found,
        Err(tag) => {
            return Err(DOSError::Component(StateSpaceError::FemOutputs(tag)));
        },
    };
    let n = fem.n_modes();
    let rows: usize = if n == 0 {
        0
    } else {
        fem.modal_disp_to_outputs.len() / n
    };
    proof {
        lemma_selection_within(dos_outputs@, fem.outputs@, true, fem.n_output_indices());
    }
    let mut columns: Vec<Vec<T>> = Vec::new();
    let mut k: usize = 0;
    while k < n
        invariant
            k <= n,
            n == fem.spec_n_modes(),
            rows == fem.n_output_indices(),
            fem.modal_disp_to_outputs@.len() == rows * n,
            indices_within(indices@, rows as int),
            columns@.len() == k,
            forall|i: int|
                0 <= i < k ==> (#[trigger] columns@[i])@ == gather_column(
                    fem.modal_disp_to_outputs@,
                    n as int,
                    indices@,
                    i,
                ),
        decreases n - k,
    {
        let column = column_at(&fem.modal_disp_to_outputs, rows, n, &indices, k);
        columns.push(column);
        k += 1;
    }
    assert(total(sizes@) == indices.len());
    Ok((columns, sizes))
}

/// The eigen frequencies once the overrides are applied in the order given:
/// each pair puts its frequency at its mode, and a later pair wins over an
/// earlier one for the same mode.
pub open spec fn overridden<T>(w: Seq<T>, pairs: Seq<(usize, T)>) -> Seq<T>
    decreases pairs.len(),
{
    if pairs.len() == 0 {
        w
    } else {
        overridden(w, pairs.drop_last()).update(pairs.last().0 as int, pairs.last().1)
    }
}

/// Every override names a mode among the first `n`.
pub open spec fn overrides_within<T>(pairs: Seq<(usize, T)>, n: nat) -> bool {
    forall|i: int| 0 <= i < pairs.len() ==> (#[trigger] pairs[i]).0 < n
}

/// Overrides that name modes of the model leave the number of modes as it is.
pub proof fn lemma_overridden_len<T>(w: Seq<T>, pairs: Seq<(usize, T)>)
    requires
        overrides_within(pairs, w.len()),
    ensures
        overridden(w, pairs).len() == w.len(),
    decreases pairs.len(),
{
    if pairs.len() > 0 {
        let head = pairs.drop_last();
        assert forall|i: int| 0 <= i < head.len() implies (#[trigger] head[i]).0 < w.len() by {
            assert(head[i] == pairs[i]);
        }
        lemma_overridden_len(w, head);
        assert(pairs.last() == pairs[pairs.len() - 1]);
    }
}

fn apply_overrides<T: Copy>(w: &mut Vec<T>, pairs: &Vec<(usize, T)>)
    requires
        overrides_within(pairs@, old(w)@.len()),
    ensures
        final(w)@ == overridden(old(w)@, pairs@),
{
    let mut i: usize = 0;
    while i < pairs.len()
        invariant
            i <= pairs.len(),
            w@.len() == old(w)@.len(),
            overrides_within(pairs@, old(w)@.len()),
            w@ == overridden(old(w)@, pairs@.take(i as int)),
        decreases pairs.len() - i,
    {
        let (k, v) = pairs[i];
        assert(pairs@[i as int].0 < old(w)@.len());
        w.set(k, v);
        proof {
            assert(pairs@.take(i as int + 1).drop_last() =~= pairs@.take(i as int));
        }
        i += 1;
    }
    proof {
        assert(pairs@.take(pairs.len() as int) =~= pairs@);
    }
}

/// The builder of a state space model.
pub struct DiscreteStateSpace<T> {
    /// The sampling rate.
    pub sampling: Option<T>,
    /// The finite element model.
    pub fem: Option<FEM<T>>,
    /// The signals that enter the model, in declaration order.
    pub u: Option<Vec<Tags>>,
    /// The signals that leave the model, in declaration order.
    pub y: Option<Vec<Tags>>,
    /// One damping coefficient for all the modes, in place of those of the model.
    pub zeta: Option<T>,
    /// Eigen frequencies that replace those of the model, each with its mode.
    pub eigen_frequencies: Option<Vec<(usize, T)>>,
    /// The eigen frequency above which a mode is dropped.
    pub max_eigen_frequency: Option<T>,
    /// The Hankel singular value that a mode must exceed to be kept.
    pub hankel_singular_values_threshold: Option<T>,
}

/// The projection of a finite element model onto the selected signals: what
/// `build` makes, and what the modes are discretized from.
pub struct ModalModel<T> {
    /// The sampling rate.
    pub sampling: T,
    /// The eigen frequency above which a mode is dropped.
    pub max_eigen_frequency: Option<T>,
    /// The Hankel singular value that a mode must exceed to be kept.
    pub hankel_singular_values_threshold: Option<T>,
    /// The signals that enter the model, in declaration order.
    pub u_tags: Vec<Tags>,
    /// The width of each signal that enters the model.
    pub u_sizes: Vec<usize>,
    /// The signals that leave the model, in declaration order.
    pub y_tags: Vec<Tags>,
    /// The width of each signal that leaves the model.
    pub y_sizes: Vec<usize>,
    /// The eigen frequency of each mode, as the finite element model has it.
    pub eigen_frequencies: Vec<T>,
    /// The eigen frequency of each mode once the overrides are applied.
    pub frequencies: Vec<T>,
    /// The damping coefficient of each mode.
    pub damping: Vec<T>,
    /// For each mode, the gain from each input scalar to the modal force.
    pub forces_2_modes: Vec<Vec<T>>,
    /// For each mode, the gain from the modal displacement to each output scalar.
    pub modes_2_nodes: Vec<Vec<T>>,
}

impl<T> DiscreteStateSpace<T> {
    /// What `build` asks of the builder: where it holds a finite element
    /// model, the model is well formed and every override names one of its modes.
    pub open spec fn wf(self) -> bool {
        self.fem matches Some(fem) ==> {
            &&& fem.wf()
            &&& self.eigen_frequencies matches Some(pairs) ==> overrides_within(
                pairs@,
                fem.spec_n_modes(),
            )
        }
    }

    /// Every argument that `build` needs is there, and every selected signal
    /// is matched to a port of the finite element model.
    pub open spec fn complete(self) -> bool {
        &&& self.sampling is Some
        &&& self.fem is Some
        &&& self.u is Some
        &&& self.y is Some
        &&& first_unmatched(self.u->0@, self.fem->0.inputs@, false) is None
        &&& first_unmatched(self.y->0@, self.fem->0.outputs@, true) is None
    }

    /// The error is that of the missing argument `name`.
    pub open spec fn misses(e: DOSError<StateSpaceError>, name: Seq<char>) -> bool {
        e matches DOSError::Component(StateSpaceError::MissingArguments(what)) && what@ == name
    }

    /// The error that `build` reports: the first argument that is missing, in
    /// the order sampling rate, finite element model, inputs, outputs; else
    /// the first input signal that matches nothing; else the first such
    /// output signal.
    pub open spec fn fails_with(self, e: DOSError<StateSpaceError>) -> bool {
        if self.sampling is None {
            Self::misses(e, "sampling"@)
        } else if self.fem is None {
            Self::misses(e, "FEM"@)
        } else if self.u is None {
            Self::misses(e, "inputs"@)
        } else if self.y is None {
            Self::misses(e, "outputs"@)
        } else if first_unmatched(self.u->0@, self.fem->0.inputs@, false) is Some {
            e == DOSError::Component(
                StateSpaceError::FemInputs(
                    first_unmatched(self.u->0@, self.fem->0.inputs@, false)->0,
                ),
            )
        } else {
            first_unmatched(self.y->0@, self.fem->0.outputs@, true) matches Some(tag) && e
                == DOSError::Component(StateSpaceError::FemOutputs(tag))
        }
    }
}

impl<T> ModalModel<T> {
    /// The number of modes.
    pub open spec fn spec_n_modes(self) -> nat {
        self.eigen_frequencies@.len()
    }

    /// The model is the projection of the finite element model of a complete
    /// builder onto the signals that the builder selects.
    pub open spec fn projects(self, builder: DiscreteStateSpace<T>) -> bool {
        let fem = builder.fem->0;
        let u = builder.u->0@;
        let y = builder.y->0@;
        &&& self.sampling == builder.sampling->0
        &&& self.max_eigen_frequency == builder.max_eigen_frequency
        &&& self.hankel_singular_values_threshold == builder.hankel_singular_values_threshold
        &&& self.u_tags@ == u
        &&& are_widths(self.u_sizes@, u, fem.inputs@, false)
        &&& total(self.u_sizes@) == selection(u, fem.inputs@, false).len()
        &&& self.y_tags@ == y
        &&& are_widths(self.y_sizes@, y, fem.outputs@, true)
        &&& total(self.y_sizes@) == selection(y, fem.outputs@, true).len()
        &&& self.eigen_frequencies@ == fem.eigen_frequencies@
        &&& self.frequencies@ == match builder.eigen_frequencies {
            Some(pairs) => overridden(fem.eigen_frequencies@, pairs@),
            None => fem.eigen_frequencies@,
        }
        &&& self.damping@ == match builder.zeta {
            Some(zeta) => Seq::new(fem.spec_n_modes(), |k: int| zeta),
            None => fem.proportional_damping_vec@,
        }
        &&& self.forces_2_modes@.len() == fem.spec_n_modes()
        &&& forall|k: int|
            0 <= k < fem.spec_n_modes() ==> (#[trigger] self.forces_2_modes@[k])@ == gather_row(
                fem.inputs_to_modal_forces@,
                fem.n_input_indices(),
                selection(u, fem.inputs@, false),
                k,
            )
        &&& self.modes_2_nodes@.len() == fem.spec_n_modes()
        &&& forall|k: int|
            0 <= k < fem.spec_n_modes() ==> (#[trigger] self.modes_2_nodes@[k])@ == gather_column(
                fem.modal_disp_to_outputs@,
                fem.spec_n_modes() as int,
                selection(y, fem.outputs@, true),
                k,
            )
    }

    /// The model is consistent: it has a width for each signal, and for each
    /// mode an eigen frequency, a damping coefficient, one gain for each
    /// input scalar and one for each output scalar.
    pub open spec fn wf(self) -> bool {
        &&& self.u_sizes@.len() == self.u_tags@.len()
        &&& self.y_sizes@.len() == self.y_tags@.len()
        &&& total(self.u_sizes@) <= usize::MAX
        &&& total(self.y_sizes@) <= usize::MAX
        &&& self.frequencies@.len() == self.spec_n_modes()
        &&& self.damping@.len() == self.spec_n_modes()
        &&& self.forces_2_modes@.len() == self.spec_n_modes()
        &&& self.modes_2_nodes@.len() == self.spec_n_modes()
        &&& forall|k: int|
            0 <= k < self.spec_n_modes() ==> (#[trigger] self.forces_2_modes@[k])@.len() == total(
                self.u_sizes@,
            )
        &&& forall|k: int|
            0 <= k < self.spec_n_modes() ==> (#[trigger] self.modes_2_nodes@[k])@.len() == total(
                self.y_sizes@,
            )
    }
}

impl<T: Copy> DiscreteStateSpace<T> {
    /// Projects the finite element model onto the selected signals.
    ///
    /// The model is first reduced to the inputs and outputs that a selected
    /// signal is matched to. Then, for each mode, the gains from the selected
    /// input scalars and to the selected output scalars are taken from the
    /// two projection matrices, the overrides are applied to the eigen
    /// frequencies, and the damping coefficients are chosen: the uniform one
    /// where it was given, else those of the model.
    pub fn build(self) -> (r: Result<ModalModel<T>, DOSError<StateSpaceError>>)
        requires
            self.wf(),
        ensures
            match r {
                Ok(model) => self.complete() && model.projects(self) && model.wf(),
                Err(e) => !self.complete() && self.fails_with(e),
            },
    {
        let ghost builder = self;
        let DiscreteStateSpace {
            sampling,
            fem,
            u,
            y,
            zeta,
            eigen_frequencies,
            max_eigen_frequency,
            hankel_singular_values_threshold,
        } = self;
        let sampling = match sampling {
            Some(sampling) => sampling,
            None => {
                return Err(
                    DOSError::Component(
                        StateSpaceError::MissingArguments(String::from_str("sampling")),
                    ),
                );
            },
        };
        let mut fem = match fem {
            Some(fem) => fem,
            None => {
                return Err(
                    DOSError::Component(StateSpaceError::MissingArguments(String::from_str("FEM"))),
                );
            },
        };
        let dos_inputs = match u {
            Some(u) => u,
            None => {
                return Err(
                    DOSError::Component(
                        StateSpaceError::MissingArguments(String::from_str("inputs")),
                    ),
                );
            },
        };
        let dos_outputs = match y {
            Some(y) => y,
            None => {
                return Err(
                    DOSError::Component(
                        StateSpaceError::MissingArguments(String::from_str("outputs")),
                    ),
                );
            },
        };
        let ghost given = fem;
        select_fem_io(&mut fem, &dos_inputs, &dos_outputs);
        proof {
            lemma_retained_ports_selection(dos_inputs@, dos_inputs@, given.inputs@, false);
            lemma_retained_ports_selection(dos_outputs@, dos_outputs@, given.outputs@, true);
        }
        let (forces_2_modes, u_sizes) = match io2modes(&fem, &dos_inputs) {
            Ok(found) => found,
            Err(e) => {
                return Err(e);
            },
        };
        let (modes_2_nodes, y_sizes) = match modes2io(&fem, &dos_outputs) {
            Ok(found) => found,
            Err(e) => {
                return Err(e);
            },
        };
        let n = fem.n_modes();
        let mut frequencies = copied(&fem.eigen_frequencies);
        if let Some(pairs) = eigen_frequencies {
            apply_overrides(&mut frequencies, &pairs);
            proof {
                lemma_overridden_len(given.eigen_frequencies@, pairs@);
            }
        }
        let damping = match zeta {
            Some(zeta) => filled(zeta, n),
            None => fem.proportional_damping_vec,
        };
        let model = ModalModel {
            sampling,
            max_eigen_frequency,
            hankel_singular_values_threshold,
            u_tags: dos_inputs,
            u_sizes,
            y_tags: dos_outputs,
            y_sizes,
            eigen_frequencies: fem.eigen_frequencies,
            frequencies,
            damping,
            forces_2_modes,
            modes_2_nodes,
        };
        proof {
            assert(model.projects(builder));
            assert forall|k: int| 0 <= k < model.spec_n_modes() implies (
            #[trigger] model.forces_2_modes@[k])@.len() == total(model.u_sizes@) by {}
            assert forall|k: int| 0 <= k < model.spec_n_modes() implies (
            #[trigger] model.modes_2_nodes@[k])@.len() == total(model.y_sizes@) by {}
            assert(model.frequencies@.len() == model.spec_n_modes());
            assert(model.damping@.len() == model.spec_n_modes());
            assert(model.wf());
        }
        Ok(model)
    }
}

impl<T> DiscreteStateSpace<T> {
    /// A builder to which nothing was given yet.
    pub fn new() -> (r: Self)
        ensures
            r.sampling is None,
            r.fem is None,
            r.u is None,
            r.y is None,
            r.zeta is None,
            r.eigen_frequencies is None,
            r.max_eigen_frequency is None,
            r.hankel_singular_values_threshold is None,
    {
        DiscreteStateSpace {
            sampling: None,
            fem: None,
            u: None,
            y: None,
            zeta: None,
            eigen_frequencies: None,
            max_eigen_frequency: None,
            hankel_singular_values_threshold: None,
        }
    }

    /// A builder of the state space model of a finite element model.
    pub fn from(fem: FEM<T>) -> (r: Self)
        ensures
            r.sampling is None,
            r.fem == Some(fem),
            r.u is None,
            r.y is None,
            r.zeta is None,
            r.eigen_frequencies is None,
            r.max_eigen_frequency is None,
            r.hankel_singular_values_threshold is None,
    {
        DiscreteStateSpace {
            sampling: None,
            fem: Some(fem),
            u: None,
            y: None,
            zeta: None,
            eigen_frequencies: None,
            max_eigen_frequency: None,
            hankel_singular_values_threshold: None,
        }
    }

    /// Sets the sampling rate of the discrete state space model.
    pub fn sampling(self, sampling: T) -> (r: Self)
        ensures
            r == (DiscreteStateSpace { sampling: Some(sampling), ..self }),
    {
        DiscreteStateSpace { sampling: Some(sampling), ..self }
    }

    /// Sets one damping coefficient for all the modes.
    pub fn proportional_damping(self, zeta: T) -> (r: Self)
        ensures
            r == (DiscreteStateSpace { zeta: Some(zeta), ..self }),
    {
        DiscreteStateSpace { zeta: Some(zeta), ..self }
    }

    /// Replaces some eigen frequencies: each pair gives a mode and its new frequency.
    pub fn eigen_frequencies(self, eigen_frequencies: Vec<(usize, T)>) -> (r: Self)
        ensures
            r == (DiscreteStateSpace { eigen_frequencies: Some(eigen_frequencies), ..self }),
    {
        DiscreteStateSpace { eigen_frequencies: Some(eigen_frequencies), ..self }
    }

    /// Drops the modes whose eigen frequency is above `max_eigen_frequency`.
    pub fn max_eigen_frequency(self, max_eigen_frequency: T) -> (r: Self)
        ensures
            r == (DiscreteStateSpace { max_eigen_frequency: Some(max_eigen_frequency), ..self }),
    {
        DiscreteStateSpace { max_eigen_frequency: Some(max_eigen_frequency), ..self }
    }

    /// Drops the modes whose Hankel singular value does not exceed `threshold`.
    pub fn hankel_singular_values_threshold(self, threshold: T) -> (r: Self)
        ensures
            r == (DiscreteStateSpace { hankel_singular_values_threshold: Some(threshold), ..self }),
    {
        DiscreteStateSpace { hankel_singular_values_threshold: Some(threshold), ..self }
    }

    /// The signals that are selected once `more` is added to the selection `had`.
    pub open spec fn added(had: Option<Vec<Tags>>, more: Seq<Tags>) -> Seq<Tags> {
        match had {
            Some(had) => had@ + more,
            None => more,
        }
    }

    /// The builder is `self` but for its inputs, which are `u`.
    pub open spec fn with_inputs(self, r: Self, u: Seq<Tags>) -> bool {
        &&& r.u matches Some(list) && list@ == u
        &&& r.sampling == self.sampling
        &&& r.fem == self.fem
        &&& r.y == self.y
        &&& r.zeta == self.zeta
        &&& r.eigen_frequencies == self.eigen_frequencies
        &&& r.max_eigen_frequency == self.max_eigen_frequency
        &&& r.hankel_singular_values_threshold == self.hankel_singular_values_threshold
    }

    /// The builder is `self` but for its outputs, which are `y`.
    pub open spec fn with_outputs(self, r: Self, y: Seq<Tags>) -> bool {
        &&& r.y matches Some(list) && list@ == y
        &&& r.sampling == self.sampling
        &&& r.fem == self.fem
        &&& r.u == self.u
        &&& r.zeta == self.zeta
        &&& r.eigen_frequencies == self.eigen_frequencies
        &&& r.max_eigen_frequency == self.max_eigen_frequency
        &&& r.hankel_singular_values_threshold == self.hankel_singular_values_threshold
    }

    /// Adds the signals `v_u` to the inputs of the model, after those that it has.
    pub fn inputs(self, v_u: Vec<Tags>) -> (r: Self)
        ensures
            self.with_inputs(r, Self::added(self.u, v_u@)),
    {
        let mut v_u = v_u;
        let DiscreteStateSpace {
            sampling,
            fem,
            u,
            y,
            zeta,
            eigen_frequencies,
            max_eigen_frequency,
            hankel_singular_values_threshold,
        } = self;
        let u = match u {
            Some(mut u) => {
                u.append(&mut v_u);
                u
            },
            None => v_u,
        };
        DiscreteStateSpace {
            sampling,
            fem,
            u: Some(u),
            y,
            zeta,
            eigen_frequencies,
            max_eigen_frequency,
            hankel_singular_values_threshold,
        }
    }

    /// Adds the signals that another component gives to the inputs of the model.
    pub fn inputs_from<C: IOTags>(self, element: &C) -> (r: Self)
        ensures
            self.with_inputs(r, Self::added(self.u, element.outputs_tags_spec())),
    {
        self.inputs(element.outputs_tags())
    }

    /// Adds the signals `v_y` to the outputs of the model, after those that it has.
    pub fn outputs(self, v_y: Vec<Tags>) -> (r: Self)
        ensures
            self.with_outputs(r, Self::added(self.y, v_y@)),
    {
        let mut v_y = v_y;
        let DiscreteStateSpace {
            sampling,
            fem,
            u,
            y,
            zeta,
            eigen_frequencies,
            max_eigen_frequency,
            hankel_singular_values_threshold,
        } = self;
        let y = match y {
            Some(mut y) => {
                y.append(&mut v_y);
                y
            },
            None => v_y,
        };
        DiscreteStateSpace {
            sampling,
            fem,
            u,
            y: Some(y),
            zeta,
            eigen_frequencies,
            max_eigen_frequency,
            hankel_singular_values_threshold,
        }
    }

    /// Adds the signals that another component takes to the outputs of the model.
    pub fn outputs_to<C: IOTags>(self, element: &C) -> (r: Self)
        ensures
            self.with_outputs(r, Self::added(self.y, element.inputs_tags_spec())),
    {
        self.outputs(element.inputs_tags())
    }
}

impl<T> DiscreteStateSpace<T> {
    /// Whether the builder is as `build` asks: where it holds a finite
    /// element model, the model is well formed and every override names one
    /// of its modes.
    #[verifier::loop_isolation(false)]
    pub fn is_valid(&self) -> (r: bool)
        ensures
            r == self.wf(),
    {
        match &self.fem {
            Some(fem) => {
                if !fem.is_well_formed() {
                    return false;
                }
                match &self.eigen_frequencies {
                    Some(pairs) => {
                        let n = fem.n_modes();
                        let mut i: usize = 0;
                        while i < pairs.len()
                            invariant
                                i <= pairs.len(),
                                forall|j: int| 0 <= j < i ==> (#[trigger] pairs@[j]).0 < n,
                            decreases pairs.len() - i,
                        {
                            if pairs[i].0 >= n {
                                proof {
                                    assert(!((#[trigger] pairs@[i as int]).0 < n));
                                }
                                return false;
                            }
                            i += 1;
                        }
                        true
                    },
                    None => true,
                }
            },
            None => true,
        }
    }
}

} // verus!
