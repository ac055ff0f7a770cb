//! The modal description of the structure, as the state space builder reads it.
//!
//! A finite element model is reduced to what the simulator needs: the named
//! input and output ports with their scalar indices, the two modal projection
//! matrices in row-major layout, and the eigen frequency and damping of each
//! mode. The samples are of any copyable type `T`: the model only moves them.

use vstd::prelude::*;

verus! {

/// One entry of a port: a list of 1-based scalar indices, switched on or off.
#[derive(Debug)]
pub enum FemIo {
    /// The entry is switched on: its indices count.
    On(Vec<u32>),
    /// The entry is switched off: its indices are passed over.
    Off(Vec<u32>),
}

/// A named input or output of the model with its entries.
#[derive(Debug)]
pub struct FemPort {
    /// The identifier by which a signal is matched to the port.
    pub name: String,
    /// The entries of the port, in the order of the model.
    pub io: Vec<FemIo>,
}

/// The scalar indices of the entries that are switched on, in encounter order.
pub open spec fn on_indices(io: Seq<FemIo>) -> Seq<u32>
    decreases io.len(),
{
    if io.len() == 0 {
        Seq::empty()
    } else {
        let head = on_indices(io.drop_last());
        match io.last() {
            FemIo::On(indices) => head + indices@,
            FemIo::Off(_) => head,
        }
    }
}

/// Every index of `indices` lies in `1..=bound`.
pub open spec fn indices_within(indices: Seq<u32>, bound: int) -> bool {
    forall|i: int| 0 <= i < indices.len() ==> 1 <= #[trigger] indices[i] <= bound
}

/// Every switched-on index of every present port lies in `1..=bound`.
pub open spec fn ports_within(ports: Seq<Option<FemPort>>, bound: int) -> bool {
    forall|p: int|
        0 <= p < ports.len() ==> (#[trigger] ports[p] matches Some(port) ==> indices_within(
            on_indices(port.io@),
            bound,
        ))
}

proof fn lemma_on_indices_push(io: Seq<FemIo>, e: FemIo)
    ensures
        on_indices(io.push(e)) == match e {
            FemIo::On(indices) => on_indices(io) + indices@,
            FemIo::Off(_) => on_indices(io),
        },
{
    assert(io.push(e).drop_last() =~= io);
}

impl FemIo {
    /// Whether the entry is switched on.
    pub fn is_on(&self) -> (r: bool)
        ensures
            r == (self is On),
    {
        match self {
            FemIo::On(_) => true,
            FemIo::Off(_) => false,
        }
    }
}

impl FemPort {
    /// The scalar indices of the port: those of its switched-on entries, in order.
    pub fn indices(&self) -> (r: Vec<u32>)
        ensures
            r@ == on_indices(self.io@),
    {
        let mut r: Vec<u32> = Vec::new();
        let mut i: usize = 0;
        while i < self.io.len()
            invariant
                i <= self.io.len(),
                r@ == on_indices(self.io@.take(i as int)),
            decreases self.io.len() - i,
        {
            proof {
                lemma_on_indices_push(self.io@.take(i as int), self.io@[i as int]);
                assert(self.io@.take(i as int).push(self.io@[i as int]) =~= self.io@.take(
                    i as int + 1,
                ));
            }
            match &self.io[i] {
                FemIo::On(indices) => {
                    let ghost before = r@;
                    let mut j: usize = 0;
                    while j < indices.len()
                        invariant
                            j <= indices.len(),
                            r@ == before + indices@.take(j as int),
                        decreases indices.len() - j,
                    {
                        r.push(indices[j]);
                        j += 1;
                        proof {
                            assert(indices@.take(j as int) =~= indices@.take(j as int - 1).push(
                                indices@[j as int - 1],
                            ));
                            assert(r@ =~= before + indices@.take(j as int));
                        }
                    }
                    proof {
                        assert(indices@.take(indices.len() as int) =~= indices@);
                    }
                },
                FemIo::Off(_) => {},
            }
            i += 1;
        }
        proof {
            assert(self.io@.take(self.io.len() as int) =~= self.io@);
        }
        r
    }
}

/// A finite element model in second order modal form.
pub struct FEM<T> {
    /// The input ports; an absent entry is a port that the model does not have.
    pub inputs: Vec<Option<FemPort>>,
    /// The output ports.
    pub outputs: Vec<Option<FemPort>>,
    /// The eigen frequency of each mode.
    pub eigen_frequencies: Vec<T>,
    /// Inputs to modal forces, `n_modes` rows of `n_input_indices` columns, row by row.
    pub inputs_to_modal_forces: Vec<T>,
    /// Modal displacements to outputs, `n_output_indices` rows of `n_modes` columns, row by row.
    pub modal_disp_to_outputs: Vec<T>,
    /// The damping coefficient of each mode.
    pub proportional_damping_vec: Vec<T>,
}

impl<T> FEM<T> {
    /// The number of modes.
    pub open spec fn spec_n_modes(self) -> nat {
        self.eigen_frequencies@.len()
    }

    /// The number of columns of the inputs to modal forces matrix.
    pub open spec fn n_input_indices(self) -> int {
        if self.spec_n_modes() == 0 {
            0
        } else {
            self.inputs_to_modal_forces@.len() as int / self.spec_n_modes() as int
        }
    }

    /// The number of rows of the modal displacements to outputs matrix.
    pub open spec fn n_output_indices(self) -> int {
        if self.spec_n_modes() == 0 {
            0
        } else {
            self.modal_disp_to_outputs@.len() as int / self.spec_n_modes() as int
        }
    }

    /// The model is well formed: both matrices are rectangular with one row,
    /// respectively one column, per mode, each mode has a damping coefficient,
    /// and every switched-on index of a port names a column, respectively a
    /// row, of its matrix.
    pub open spec fn wf(self) -> bool {
        &&& self.inputs_to_modal_forces@.len() == self.spec_n_modes() * self.n_input_indices()
        &&& self.modal_disp_to_outputs@.len() == self.n_output_indices() * self.spec_n_modes()
        &&& self.proportional_damping_vec@.len() == self.spec_n_modes()
        &&& ports_within(self.inputs@, self.n_input_indices())
        &&& ports_within(self.outputs@, self.n_output_indices())
    }

    /// The number of modes.
    pub fn n_modes(&self) -> (n: usize)
        ensures
            n == self.spec_n_modes(),
    {
        self.eigen_frequencies.len()
    }
}

/// Whether `k` is one of the positions listed in `id`.
pub fn listed(id: &Vec<usize>, k: usize) -> (r: bool)
    ensures
        r == id@.contains(k),
{
    let mut i: usize = 0;
    while i < id.len()
        invariant
            i <= id.len(),
            forall|j: int| 0 <= j < i ==> id@[j] != k,
        decreases id.len() - i,
    {
        if id[i] == k {
            return true;
        }
        i += 1;
    }
    false
}

/// The ports that stay when only those at the positions `id` are kept: the
/// others are absent from then on, and no position moves.
pub open spec fn kept(ports: Seq<Option<FemPort>>, id: Seq<usize>) -> Seq<Option<FemPort>> {
    Seq::new(
        ports.len(),
        |k: int|
            if id.contains(k as usize) {
                ports[k]
            } else {
                None
            },
    )
}

fn keep(ports: &mut Vec<Option<FemPort>>, id: &Vec<usize>)
    ensures
        final(ports)@ == kept(old(ports)@, id@),
{
    let mut k: usize = 0;
    while k < ports.len()
        invariant
            k <= ports.len(),
            ports.len() == old(ports).len(),
            forall|j: int| 0 <= j < k ==> ports@[j] == kept(old(ports)@, id@)[j],
            forall|j: int| k <= j < ports.len() ==> ports@[j] == old(ports)@[j],
        decreases ports.len() - k,
    {
        if !listed(id, k) {
            ports.set(k, None);
        }
        k += 1;
    }
    proof {
        assert(ports@ =~= kept(old(ports)@, id@));
    }
}

impl<T> FEM<T> {
    /// Keeps the inputs at the positions `id` of the list of inputs, and
    /// takes the others out of the model.
    pub fn keep_inputs(&mut self, id: &Vec<usize>)
        ensures
            final(self).inputs@ == kept(old(self).inputs@, id@),
            final(self).outputs == old(self).outputs,
            final(self).eigen_frequencies == old(self).eigen_frequencies,
            final(self).inputs_to_modal_forces == old(self).inputs_to_modal_forces,
            final(self).modal_disp_to_outputs == old(self).modal_disp_to_outputs,
            final(self).proportional_damping_vec == old(self).proportional_damping_vec,
    {
        keep(&mut self.inputs, id);
    }

    /// Keeps the outputs at the positions `id` of the list of outputs, and
    /// takes the others out of the model.
    pub fn keep_outputs(&mut self, id: &Vec<usize>)
        ensures
            final(self).outputs@ == kept(old(self).outputs@, id@),
            final(self).inputs == old(self).inputs,
            final(self).eigen_frequencies == old(self).eigen_frequencies,
            final(self).inputs_to_modal_forces == old(self).inputs_to_modal_forces,
            final(self).modal_disp_to_outputs == old(self).modal_disp_to_outputs,
            final(self).proportional_damping_vec == old(self).proportional_damping_vec,
    {
        keep(&mut self.outputs, id);
    }
}

/// Whether every index lies in `1..=bound`.
pub fn are_indices_within(indices: &Vec<u32>, bound: usize) -> (r: bool)
    ensures
        r == indices_within(indices@, bound as int),
{
    let mut i: usize = 0;
    while i < indices.len()
        invariant
            i <= indices.len(),
            forall|j: int| 0 <= j < i ==> 1 <= #[trigger] indices@[j] <= bound,
        decreases indices.len() - i,
    {
        if indices[i] < 1 || indices[i] as usize > bound {
            return false;
        }
        i += 1;
    }
    true
}

/// Whether every switched-on index of every present port lies in `1..=bound`.
pub fn are_ports_within(ports: &Vec<Option<FemPort>>, bound: usize) -> (r: bool)
    ensures
        r == ports_within(ports@, bound as int),
{
    let mut p: usize = 0;
    while p < ports.len()
        invariant
            p <= ports.len(),
            forall|q: int|
                0 <= q < p ==> (#[trigger] ports@[q] matches Some(port) ==> indices_within(
                    on_indices(port.io@),
                    bound as int,
                )),
        decreases ports.len() - p,
    {
        if let Some(port) = &ports[p] {
            let indices = port.indices();
            if !are_indices_within(&indices, bound) {
                proof {
                    assert(ports@[p as int] matches Some(port) && !indices_within(
                        on_indices(port.io@),
                        bound as int,
                    ));
                }
                return false;
            }
        }
        p += 1;
    }
    true
}

proof fn lemma_divides(len: int, n: int)
    by (nonlinear_arith)
    requires
        n > 0,
        len >= 0,
    ensures
        len % n == 0 <==> len == n * (len / n),
        len % n == 0 <==> len == (len / n) * n,
{
}

impl<T> FEM<T> {
    /// Whether the model is well formed.
    pub fn is_well_formed(&self) -> (r: bool)
        ensures
            r == self.wf(),
    {
        let n = self.n_modes();
        let n_in = self.inputs_to_modal_forces.len();
        let n_out = self.modal_disp_to_outputs.len();
        if self.proportional_damping_vec.len() != n {
            return false;
        }
        if n == 0 {
            if n_in != 0 || n_out != 0 {
                return false;
            }
            are_ports_within(&self.inputs, 0) && are_ports_within(&self.outputs, 0)
        } else {
            proof {
                lemma_divides(n_in as int, n as int);
                lemma_divides(n_out as int, n as int);
            }
            if n_in % n != 0 || n_out % n != 0 {
                return false;
            }
            are_ports_within(&self.inputs, n_in / n) && are_ports_within(&self.outputs, n_out / n)
        }
    }
}

} // verus!
