use groth16::constraints::VerifyingKeyVar;
use groth16::data::VerifyingKey;
use groth16::mock::{MockConstraintSystem, MockPairing, COFACTOR, SUBGROUP_ORDER};
use groth16::pairing::AllocationMode;

fn embed(k: u64) -> u64 {
    (k % SUBGROUP_ORDER) * COFACTOR
}

fn make_vk(a1: u64, b1: u64, c1: u64, d1: u64, ks: &[u64]) -> VerifyingKey<MockPairing> {
    VerifyingKey {
        alpha_g1: embed(a1),
        beta_g2: embed(b1),
        gamma_g2: embed(c1),
        delta_g2: embed(d1),
        gamma_abc_g1: ks.iter().map(|k| embed(*k)).collect(),
    }
}

fn le_bytes(v: u64) -> Vec<u8> {
    vec![
        (v % 256) as u8,
        ((v / 256) % 256) as u8,
        ((v / 65536) % 256) as u8,
        ((v / 16777216) % 256) as u8,
    ]
}

#[test]
fn to_bytes_le_concatenates_the_elements_in_order() {
    let vk = make_vk(1, 2, 3, 300, &[5, 6]);
    let mut cs = MockConstraintSystem::new();
    let vk_gadget =
        VerifyingKeyVar::<MockPairing>::new_variable(&mut cs, Ok(vk), AllocationMode::Constant)
            .unwrap();
    let bytes = vk_gadget.to_bytes_le().unwrap();
    let mut expected = Vec::new();
    for v in [embed(1), embed(2), embed(3), embed(300), embed(5), embed(6)] {
        expected.extend(le_bytes(v));
    }
    assert_eq!(bytes, expected);
}

#[test]
fn to_sponge_field_elements_lists_the_values_in_order() {
    let vk = make_vk(1, 2, 3, 300, &[5, 6]);
    let mut cs = MockConstraintSystem::new();
    let vk_gadget =
        VerifyingKeyVar::<MockPairing>::new_variable(&mut cs, Ok(vk), AllocationMode::Constant)
            .unwrap();
    let elems = vk_gadget.to_sponge_field_elements().unwrap();
    assert_eq!(elems, vec![embed(1), embed(2), embed(3), embed(300), embed(5), embed(6)]);
}

#[test]
fn encoding_the_same_variable_twice_is_identical() {
    let vk = make_vk(9, 8, 7, 6, &[5, 4, 3]);
    let mut cs = MockConstraintSystem::new();
    let vk_gadget =
        VerifyingKeyVar::<MockPairing>::new_variable(&mut cs, Ok(vk), AllocationMode::Constant)
            .unwrap();
    assert_eq!(vk_gadget.to_bytes_le().unwrap(), vk_gadget.to_bytes_le().unwrap());
    assert_eq!(vk_gadget.to_sponge_bytes().unwrap(), vk_gadget.to_sponge_bytes().unwrap());
    assert_eq!(
        vk_gadget.to_sponge_field_elements().unwrap(),
        vk_gadget.to_sponge_field_elements().unwrap()
    );
}

#[test]
fn encodings_agree_across_allocation_modes() {
    let mut cs = MockConstraintSystem::new();
    let constant =
        VerifyingKeyVar::<MockPairing>::new_variable(
            &mut cs,
            Ok(make_vk(9, 8, 7, 6, &[5, 4, 3])),
            AllocationMode::Constant,
        )
        .unwrap();
    let witness =
        VerifyingKeyVar::<MockPairing>::new_variable(
            &mut cs,
            Ok(make_vk(9, 8, 7, 6, &[5, 4, 3])),
            AllocationMode::Witness,
        )
        .unwrap();
    assert_eq!(constant.to_bytes_le().unwrap(), witness.to_bytes_le().unwrap());
    assert_eq!(constant.to_sponge_bytes().unwrap(), witness.to_sponge_bytes().unwrap());
    assert_eq!(
        constant.to_sponge_field_elements().unwrap(),
        witness.to_sponge_field_elements().unwrap()
    );
}

#[test]
fn cloned_variables_encode_identically() {
    let vk = make_vk(100, 25, 12, 1, &[2, 4, 8]);
    let mut cs = MockConstraintSystem::new();
    let vk_gadget =
        VerifyingKeyVar::<MockPairing>::new_variable(&mut cs, Ok(vk), AllocationMode::Constant)
            .unwrap();
    let copy = vk_gadget.clone();
    assert_eq!(vk_gadget.to_bytes_le().unwrap(), copy.to_bytes_le().unwrap());
    assert_eq!(
        vk_gadget.to_sponge_field_elements().unwrap(),
        copy.to_sponge_field_elements().unwrap()
    );
}
