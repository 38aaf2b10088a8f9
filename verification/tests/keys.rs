use carbon_indexer::keys::{system_program_id, Pubkey, Signature};

#[test]
fn pubkey_from_vec_needs_thirty_two_bytes() {
    let k = Pubkey::try_from_vec(vec![3; 32]).unwrap();
    assert_eq!(k.to_bytes(), [3; 32]);
    assert_eq!(Pubkey::try_from_vec(vec![3; 31]), Err(vec![3; 31]));
    assert_eq!(Pubkey::try_from_vec(vec![3; 33]), Err(vec![3; 33]));
}

#[test]
fn pubkey_from_vec_agrees_with_solana_pubkey() {
    for len in [0usize, 31, 32, 33] {
        let bytes: Vec<u8> = (0..len as u8).collect();
        let ours = Pubkey::try_from_vec(bytes.clone()).map(|k| k.to_bytes());
        let theirs = solana_pubkey::Pubkey::try_from(bytes).map(|k| k.to_bytes());
        assert_eq!(ours, theirs);
    }
}

#[test]
fn signature_from_vec_needs_sixty_four_bytes() {
    let s = Signature::try_from_vec(vec![1; 64]).unwrap();
    assert_eq!(s.bytes, [1; 64]);
    assert!(Signature::try_from_vec(vec![1; 63]).is_err());
    assert!(Signature::try_from_vec(Vec::new()).is_err());
}

#[test]
fn system_program_id_is_the_all_zero_address() {
    assert_eq!(system_program_id().to_bytes(), [0; 32]);
    assert_eq!(system_program_id().to_bytes(), solana_system_interface::program::ID.to_bytes());
    assert_eq!(Pubkey::default(), system_program_id());
}

#[test]
fn same_as_compares_bytes() {
    let a = Pubkey::new_from_array([1; 32]);
    let mut other = [1; 32];
    assert!(a.same_as(&Pubkey::new_from_array(other)));
    other[31] = 2;
    assert!(!a.same_as(&Pubkey::new_from_array(other)));
}
