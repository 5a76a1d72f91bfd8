use halo2_proofs::circuit::{Layouter, SimpleFloorPlanner, Value};
use halo2_proofs::dev::MockProver;
use halo2_proofs::pasta::Fp;
use halo2_proofs::plonk::{Assigned, Circuit, ConstraintSystem, Error};

use range_gadgets::backend::{AdviceColumn, CsBuilder, CsHandle};
use range_gadgets::range_lookup::RangeCheckLookupConfig;

#[derive(Default)]
struct RangeCheckLookupCircuit<const RANGE: usize> {
    lookup_values: Vec<Value<Assigned<Fp>>>,
}

impl<const RANGE: usize> Circuit<Fp> for RangeCheckLookupCircuit<RANGE> {
    type Config = RangeCheckLookupConfig<RANGE>;
    type FloorPlanner = SimpleFloorPlanner;

    fn without_witnesses(&self) -> Self {
        Self::default()
    }

    fn configure(meta: &mut ConstraintSystem<Fp>) -> Self::Config {
        let value = meta.advice_column();
        RangeCheckLookupConfig::configure(&mut CsBuilder::new(CsHandle { raw: meta }), AdviceColumn {
            raw: value,
        })
    }

    fn synthesize(
        &self,
        config: Self::Config,
        mut layouter: impl Layouter<Fp>,
    ) -> Result<(), Error> {
        config.table.load(&mut layouter).map_err(|e| e.into_inner())?;

        for v in self.lookup_values.iter() {
            let mut scope = layouter.namespace(|| "layout");
            config.assign_lookup(&mut scope, *v).map_err(|e| e.into_inner()).unwrap();
        }

        Ok(())
    }
}

#[test]
fn test_complete() {
    let k: u32 = 4;
    const RANGE: usize = 9;
    let lookup_values = vec![
        Value::known(Fp::from(2).into()),
        Value::known(Fp::from(5).into()),
    ];
    let circuit = RangeCheckLookupCircuit::<RANGE> { lookup_values };
    let prover = MockProver::run(k, &circuit, vec![]).unwrap();
    prover.assert_satisfied();
}

#[test]
#[should_panic]
fn test_sound() {
    let k: u32 = 4;
    const RANGE: usize = 9;
    let lookup_values = vec![
        Value::known(Fp::from(25).into()),
        Value::known(Fp::from(24).into()),
    ];
    let circuit = RangeCheckLookupCircuit::<RANGE> { lookup_values };
    let prover = MockProver::run(k, &circuit, vec![]).unwrap();
    prover.assert_satisfied();
}

#[test]
fn test_table_load_failure_is_propagated() {
    // 2^3 rows cannot hold a 9-row table: the load fails inside the
    // layouter and the gadget hands the assignment error back unchanged
    let k: u32 = 3;
    const RANGE: usize = 9;
    let circuit = RangeCheckLookupCircuit::<RANGE> { lookup_values: vec![] };
    assert!(MockProver::run(k, &circuit, vec![]).is_err());
}
