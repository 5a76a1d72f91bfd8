use halo2_proofs::circuit::{Layouter, SimpleFloorPlanner, Value};
use halo2_proofs::dev::MockProver;
use halo2_proofs::pasta::Fp;
use halo2_proofs::plonk::{Assigned, Circuit, ConstraintSystem, Error};

use range_gadgets::backend::{AdviceColumn, CsBuilder, CsHandle};
use range_gadgets::range_check::RangeCheckCircuitConfig;

#[derive(Default)]
struct RangeCheckCircuit<const RANGE_SIZE: usize> {
    value: Value<Assigned<Fp>>,
}

impl<const RANGE_SIZE: usize> Circuit<Fp> for RangeCheckCircuit<RANGE_SIZE> {
    type Config = RangeCheckCircuitConfig<RANGE_SIZE>;
    type FloorPlanner = SimpleFloorPlanner;

    fn without_witnesses(&self) -> Self {
        Self::default()
    }

    fn configure(cs: &mut ConstraintSystem<Fp>) -> Self::Config {
        let value = cs.advice_column();
        Self::Config::configure(&mut CsBuilder::new(CsHandle { raw: cs }), AdviceColumn { raw: value })
    }

    fn synthesize(
        &self,
        config: Self::Config,
        mut layouter: impl Layouter<Fp>,
    ) -> Result<(), Error> {
        let mut scope = layouter.namespace(|| "Assign value to test circ");
        config.assign(&mut scope, self.value).map_err(|e| e.into_inner())?;
        Ok(())
    }
}

#[test]
fn test_range_check_complete() {
    let k: u32 = 4;
    const RANGE_SIZE: usize = 8;

    // the prover accepts the circuit for every value in range
    for i in 0..(RANGE_SIZE as u64) {
        let circuit = RangeCheckCircuit::<RANGE_SIZE> {
            value: Value::known(Fp::from(i).into()),
        };
        let prover = MockProver::run(k, &circuit, vec![]).unwrap();
        prover.assert_satisfied();
    }
}

#[test]
#[should_panic]
fn test_range_check_sound() {
    let k: u32 = 4;
    const RANGE_SIZE: usize = 8;
    let circuit = RangeCheckCircuit::<RANGE_SIZE> {
        value: Value::known(Fp::from(RANGE_SIZE as u64).into()),
    };
    let prover = MockProver::run(k, &circuit, vec![]).unwrap();
    prover.verify().unwrap();
}
