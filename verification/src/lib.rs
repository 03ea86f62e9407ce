use vstd::prelude::*;

pub mod activation;
pub mod math;
pub mod matrix;
pub mod scalar;
pub mod util;
pub mod vector;

use activation::Activation;
use matrix::math::{column_seq, dot_product, grid_view, is_grid, matrix_sum, vector_difference};
use matrix::Matrix;
use scalar::Scalar;
use util::{cells_in_range, WeightSource};
use vector::MathError;

verus! {

broadcast use matrix::math::lemma_grid_view_push;

/// One layer's output: the activation applied to each row's dot product with
/// the input column.
pub open spec fn layer_output<T: Scalar, A: Activation<T>>(
    act: A,
    weighting: Seq<Seq<T>>,
    inputs: Seq<T>,
) -> Seq<T> {
    Seq::new(weighting.len(), |i: int| act.apply_spec(dot_product(weighting[i], inputs)))
}

/// The sigmoid-derivative-weighted error signal for one node:
/// `error * output * (one - output)`.
pub open spec fn error_delta<T: Scalar>(error: T, output: T) -> T {
    error.mul_spec(output).mul_spec(T::one_spec().sub_spec(output))
}

/// One gradient-descent weight delta: the outer product of the
/// derivative-weighted error column and the previous layer's output row,
/// scaled by the learning rate.
pub open spec fn weighting_adjustment<T: Scalar>(
    learning_rate: T,
    error: Seq<T>,
    output: Seq<T>,
    previous_output: Seq<T>,
) -> Seq<Seq<T>> {
    Seq::new(
        if error.len() <= output.len() {
            error.len()
        } else {
            output.len()
        },
        |i: int|
            Seq::new(
                previous_output.len(),
                |j: int|
                    error_delta(error[i], output[i]).mul_spec(previous_output[j]).mul_spec(
                        learning_rate,
                    ),
            ),
    )
}

/// A two-layer feedforward network: a linear map into the hidden layer, the
/// activation, a linear map into the output layer, the activation again.
/// `train` performs one step of online gradient descent per example.
pub struct NeuralNetwork<T: Scalar, A: Activation<T>> {
    pub learning_rate: T,
    pub activation_function: A,
    pub wih: Matrix<T>,  // weighting: input -> hidden
    pub who: Matrix<T>,  // weighting: hidden -> output
}

impl<T: Scalar, A: Activation<T>> NeuralNetwork<T, A> {
    /// The construction invariant: both weight matrices are well formed, the
    /// output weights consume exactly what the hidden layer produces, and
    /// every layer has at least one node.
    pub open spec fn wf(self) -> bool {
        &&& self.wih.wf()
        &&& self.who.wf()
        &&& self.who.columns == self.wih.rows
        &&& self.wih.columns >= 1
        &&& self.wih.rows >= 1
        &&& self.who.rows >= 1
    }

    /// How many inputs the network consumes.
    pub open spec fn spec_input_nodes(self) -> int {
        self.wih.columns as int
    }

    /// How many nodes the hidden layer has.
    pub open spec fn spec_hidden_nodes(self) -> int {
        self.wih.rows as int
    }

    /// How many outputs the network produces.
    pub open spec fn spec_output_nodes(self) -> int {
        self.who.rows as int
    }

    /// The hidden layer's output on `inputs`.
    pub open spec fn hidden_output(self, inputs: Seq<T>) -> Seq<T> {
        layer_output(self.activation_function, self.wih@, inputs)
    }

    /// The network's prediction on `inputs`.
    pub open spec fn final_output(self, inputs: Seq<T>) -> Seq<T> {
        layer_output(self.activation_function, self.who@, self.hidden_output(inputs))
    }

    /// The error signal at the output layer: target minus prediction.
    pub open spec fn output_error(self, inputs: Seq<T>, awaited_output: Seq<T>) -> Seq<T> {
        vector_difference(awaited_output, self.final_output(inputs))
    }

    /// The derivative-weighted error signal at the output layer:
    /// `output_delta[i] = output_error[i] * o[i] * (1 - o[i])`.
    pub open spec fn output_delta(self, inputs: Seq<T>, awaited_output: Seq<T>) -> Seq<T> {
        Seq::new(
            self.output_error(inputs, awaited_output).len(),
            |i: int|
                error_delta(
                    self.output_error(inputs, awaited_output)[i],
                    self.final_output(inputs)[i],
                ),
        )
    }

    /// The output delta carried back through the output weights as they
    /// stood before the update: node `j` receives the dot product of weight
    /// column `j` with the derivative-weighted output delta.
    pub open spec fn hidden_error(self, inputs: Seq<T>, awaited_output: Seq<T>) -> Seq<T> {
        Seq::new(
            self.wih.rows as nat,
            |j: int|
                dot_product(column_seq(self.who@, j), self.output_delta(inputs, awaited_output)),
        )
    }

    /// The delta added to the output weights by one training step.
    pub open spec fn who_adjustment(self, inputs: Seq<T>, awaited_output: Seq<T>) -> Seq<Seq<T>> {
        weighting_adjustment(
            self.learning_rate,
            self.output_error(inputs, awaited_output),
            self.final_output(inputs),
            self.hidden_output(inputs),
        )
    }

    /// The delta added to the input weights by one training step.
    pub open spec fn wih_adjustment(self, inputs: Seq<T>, awaited_output: Seq<T>) -> Seq<Seq<T>> {
        weighting_adjustment(
            self.learning_rate,
            self.hidden_error(inputs, awaited_output),
            self.hidden_output(inputs),
            inputs,
        )
    }

    /// How many inputs the network consumes.
    pub fn input_nodes(&self) -> (n: usize)
        ensures
            n == self.spec_input_nodes(),
    {
        self.wih.columns
    }

    /// How many nodes the hidden layer has.
    pub fn hidden_nodes(&self) -> (n: usize)
        ensures
            n == self.spec_hidden_nodes(),
    {
        self.wih.rows
    }

    /// How many outputs the network produces.
    pub fn output_nodes(&self) -> (n: usize)
        ensures
            n == self.spec_output_nodes(),
    {
        self.who.rows
    }

    /// Builds a network of the given topology, with both weight matrices
    /// filled from the source; every weight lies in the source's range.
    pub fn new<S: WeightSource<T>>(
        input_nodes: usize,
        hidden_nodes: usize,
        output_nodes: usize,
        learning_rate: T,
        activation_function: A,
        weights: &mut S,
    ) -> (nn: NeuralNetwork<T, A>)
        requires
            1 <= input_nodes,
            1 <= hidden_nodes,
            1 <= output_nodes,
        ensures
            nn.wf(),
            nn.spec_input_nodes() == input_nodes,
            nn.spec_hidden_nodes() == hidden_nodes,
            nn.spec_output_nodes() == output_nodes,
            nn.learning_rate == learning_rate,
            nn.activation_function == activation_function,
            cells_in_range(*old(weights), nn.wih@),
            cells_in_range(*old(weights), nn.who@),
            forall|v: T| #[trigger] final(weights).in_range(v) <==> old(weights).in_range(v),
    {
        let wih = Matrix::create_weighting_matrix(input_nodes, hidden_nodes, weights);
        let who = Matrix::create_weighting_matrix(hidden_nodes, output_nodes, weights);
        proof {
            assert forall|i: int, j: int|
                0 <= i < who@.len() && 0 <= j < who@[i].len() implies old(weights).in_range(
                #[trigger] who@[i][j],
            ) by {
                assert(who@[i][j] == who@[i][j]);
            }
        }

        NeuralNetwork {
            learning_rate,
            activation_function,
            wih,  // weighting: input -> hidden
            who,  // weighting: hidden -> output
        }
    }

    /// One layer's forward step: multiplies the weights with the input
    /// column and applies the activation to every node's sum.
    fn calculate_layer_output(&self, inputs: &[T], weighting: &[Vec<T>]) -> (outputs: Vec<T>)
        requires
            is_grid(grid_view(weighting@), inputs@.len()),
        ensures
            outputs@ == layer_output(self.activation_function, grid_view(weighting@), inputs@),
    {
        let ghost g = grid_view(weighting@);
        let mut outputs: Vec<T> = Vec::new();
        for i in 0..weighting.len()
            invariant
                g == grid_view(weighting@),
                is_grid(g, inputs@.len()),
                outputs@.len() == i,
                forall|ii: int| 0 <= ii < i ==> outputs@[ii] == layer_output(
                    self.activation_function,
                    g,
                    inputs@,
                )[ii],
        {
            assert(g[i as int] == weighting@[i as int]@);
            let ghost row = g[i as int];
            let mut cell = T::zero_val();
            for k in 0..inputs.len()
                invariant
                    g == grid_view(weighting@),
                    row == g[i as int],
                    row == weighting@[i as int]@,
                    i < weighting@.len(),
                    row.len() == inputs@.len(),
                    cell == dot_product(row.take(k as int), inputs@.take(k as int)),
            {
                let summand = weighting[i][k].mul_val(inputs[k]);
                proof {
                    crate::matrix::math::lemma_dot_product_step(row, inputs@, k as int);
                }
                cell = cell.add_val(summand);
            }
            assert(row.take(inputs@.len() as int) =~= row);
            assert(inputs@.take(inputs@.len() as int) =~= inputs@);
            outputs.push(self.activation_function.apply(cell));
        }
        assert(outputs@ =~= layer_output(self.activation_function, g, inputs@));
        outputs
    }

    /// The weight delta for one layer: pairs the error with the layer's own
    /// output to form the derivative-weighted signal, takes its outer
    /// product with the previous layer's output, and scales by the learning
    /// rate. Truncates to the shorter of `error` and `output`; never fails.
    pub fn calculate_weighting_adjustment(
        &self,
        error: &[T],
        output: &[T],
        previous_output: &[T],
    ) -> (r: Result<Vec<Vec<T>>, MathError>)
        ensures
            r matches Ok(adjustment) && grid_view(adjustment@) == weighting_adjustment(
                self.learning_rate,
                error@,
                output@,
                previous_output@,
            ),
    {
        let len: usize = if error.len() <= output.len() {
            error.len()
        } else {
            output.len()
        };
        let ghost goal = weighting_adjustment(self.learning_rate, error@, output@, previous_output@);
        let mut outer_result: Vec<Vec<T>> = Vec::new();
        for i in 0..len
            invariant
                len <= error@.len(),
                len <= output@.len(),
                goal == weighting_adjustment(self.learning_rate, error@, output@, previous_output@),
                goal.len() == len,
                outer_result@.len() == i,
                forall|ii: int| 0 <= ii < i ==> grid_view(outer_result@)[ii] == goal[ii],
        {
            let inner_value = error[i].mul_val(output[i]).mul_val(
                T::one_val().sub_val(output[i]),
            );
            assert(inner_value == error_delta(error@[i as int], output@[i as int]));
            let mut row: Vec<T> = Vec::new();
            for j in 0..previous_output.len()
                invariant
                    i < len,
                    inner_value == error_delta(error@[i as int], output@[i as int]),
                    row@.len() == j,
                    forall|jj: int| 0 <= jj < j ==> row@[jj] == error_delta(
                        error@[i as int],
                        output@[i as int],
                    ).mul_spec(previous_output@[jj]).mul_spec(self.learning_rate),
            {
                row.push(inner_value.mul_val(previous_output[j]).mul_val(self.learning_rate));
            }
            assert(row@ =~= goal[i as int]);
            outer_result.push(row);
        }
        assert(grid_view(outer_result@) =~~= goal);
        Ok(outer_result)
    }

    /// The forward pass alone: the network's prediction for the input
    /// column. Fails exactly when the input length is not the network's
    /// input width; never mutates the network.
    pub fn query(&self, inputs: &[T]) -> (result: Result<Vec<T>, MathError>)
        requires
            self.wf(),
        ensures
            result.is_ok() <==> inputs@.len() == self.spec_input_nodes(),
            result matches Ok(outputs) ==> outputs@ == self.final_output(inputs@) && outputs@.len()
                == self.spec_output_nodes(),
    {
        if inputs.len() != self.wih.columns {
            return Err(MathError);
        }
        let hidden_outputs = self.calculate_layer_output(
            inputs,
            self.wih.data_container().as_slice(),
        );
        let outputs = self.calculate_layer_output(
            hidden_outputs.as_slice(),
            self.who.data_container().as_slice(),
        );
        Ok(outputs)
    }

    /// One step of online gradient descent: a forward pass that retains both
    /// layer outputs, then the backward pass. The output weights receive the
    /// delta formed from the output error; the hidden error is the
    /// derivative-weighted output delta carried back through the output
    /// weights as they stood before that update; the input weights receive
    /// the delta formed from the hidden error. Fails exactly
    /// when the input or target length does not match the topology, and then
    /// leaves the network unchanged.
    pub fn train(&mut self, inputs: &[T], awaited_output: &[T]) -> (r: Result<(), MathError>)
        requires
            old(self).wf(),
        ensures
            final(self).wf(),
            final(self).spec_input_nodes() == old(self).spec_input_nodes(),
            final(self).spec_hidden_nodes() == old(self).spec_hidden_nodes(),
            final(self).spec_output_nodes() == old(self).spec_output_nodes(),
            final(self).learning_rate == old(self).learning_rate,
            final(self).activation_function == old(self).activation_function,
            r.is_ok() <==> (inputs@.len() == old(self).spec_input_nodes() && awaited_output@.len()
                == old(self).spec_output_nodes()),
            !r.is_ok() ==> *final(self) == *old(self),
            r.is_ok() ==> final(self).who@ == matrix_sum(
                old(self).who@,
                old(self).who_adjustment(inputs@, awaited_output@),
            ),
            r.is_ok() ==> final(self).wih@ == matrix_sum(
                old(self).wih@,
                old(self).wih_adjustment(inputs@, awaited_output@),
            ),
    {
        if inputs.len() != self.wih.columns || awaited_output.len() != self.who.rows {
            return Err(MathError);
        }
        let hidden_result = self.calculate_layer_output(
            inputs,
            self.wih.data_container().as_slice(),
        );
        let final_result = self.calculate_layer_output(
            hidden_result.as_slice(),
            self.who.data_container().as_slice(),
        );
        let output_error = matrix::math::subtract_vectors(awaited_output, final_result.as_slice());
        assert(output_error@ == old(self).output_error(inputs@, awaited_output@));
        assert(output_error@.len() == self.who.rows);

        let who_adjustment = match self.calculate_weighting_adjustment(
            output_error.as_slice(),
            final_result.as_slice(),
            hidden_result.as_slice(),
        ) {
            Ok(a) => a,
            Err(e) => { return Err(e) },
        };
        assert(grid_view(who_adjustment@) == old(self).who_adjustment(inputs@, awaited_output@));

        // The signal carried back is the derivative-weighted output delta,
        // not the raw output error.
        let mut output_delta: Vec<T> = Vec::new();
        for i in 0..output_error.len()
            invariant
                output_error@.len() <= final_result@.len(),
                output_delta@.len() == i,
                forall|ii: int| 0 <= ii < i ==> output_delta@[ii] == error_delta(
                    output_error@[ii],
                    final_result@[ii],
                ),
        {
            output_delta.push(
                output_error[i].mul_val(final_result[i]).mul_val(
                    T::one_val().sub_val(final_result[i]),
                ),
            );
        }
        assert(output_delta@ =~= old(self).output_delta(inputs@, awaited_output@));

        // The hidden error must come from the output weights before the
        // update below: transpose them, multiply with the delta column, and
        // read off the single resulting column.
        let who_t = self.who.transpose();
        let delta_col = Matrix::from_1d_vec(output_delta.as_slice(), true);
        let hidden_error_m = match who_t.multiply(&delta_col) {
            Ok(m) => m,
            Err(e) => { return Err(e) },
        };
        let hidden_error_t = hidden_error_m.transpose();
        let hidden_error = &hidden_error_t.data_container[0];
        proof {
            assert(hidden_error_t@[0] == hidden_error_t.data_container@[0]@);
            assert(hidden_error_t@[0] == column_seq(hidden_error_m@, 0));
            assert(column_seq(delta_col@, 0) =~= output_delta@);
            assert forall|j: int| 0 <= j < hidden_error@.len() implies hidden_error@[j] == old(
                self,
            ).hidden_error(inputs@, awaited_output@)[j] by {
                assert(hidden_error@[j] == hidden_error_m@[j][0]);
                assert(hidden_error_m@[j][0] == dot_product(who_t@[j], column_seq(delta_col@, 0)));
                assert(who_t@[j] == column_seq(self.who@, j));
            }
            assert(hidden_error@ =~= old(self).hidden_error(inputs@, awaited_output@));
        }

        let who_adjustment_m = match Matrix::from_2d_vec(who_adjustment.as_slice()) {
            Ok(m) => m,
            Err(e) => { return Err(e) },
        };
        self.who = match self.who.add(&who_adjustment_m) {
            Ok(m) => m,
            Err(e) => { return Err(e) },
        };

        let wih_adjustment = match self.calculate_weighting_adjustment(
            hidden_error.as_slice(),
            hidden_result.as_slice(),
            inputs,
        ) {
            Ok(a) => a,
            Err(e) => { return Err(e) },
        };
        assert(grid_view(wih_adjustment@) == old(self).wih_adjustment(inputs@, awaited_output@));
        let wih_adjustment_m = match Matrix::from_2d_vec(wih_adjustment.as_slice()) {
            Ok(m) => m,
            Err(e) => { return Err(e) },
        };
        self.wih = match self.wih.add(&wih_adjustment_m) {
            Ok(m) => m,
            Err(e) => { return Err(e) },
        };

        Ok(())
    }
}


} // verus!
