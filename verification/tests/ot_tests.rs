use oblivious_transfer::ot::{OTError, PKEObliviousTransfer};

#[test]
fn pke_oblivious_transfer_correctness() {
    let x1 = vec![0, 7, 19, 69, 8, 12];
    let x2 = 3;
    assert_eq!(PKEObliviousTransfer::eval(x1, x2), Ok(((), 69)));
}

#[test]
fn transfer_recovers_each_valid_index() {
    let messages: Vec<u32> = vec![0, 7, 19, 69, 8, 12];
    for i in 0..messages.len() {
        let out = PKEObliviousTransfer::eval(messages.clone(), i);
        assert_eq!(out, Ok(((), messages[i])));
    }
}

#[test]
fn transfer_rejects_index_at_list_length() {
    let messages: Vec<u32> = vec![0, 7, 19, 69, 8, 12];
    let n = messages.len();
    assert_eq!(PKEObliviousTransfer::eval(messages, n), Err(OTError::InvalidIndex));
}

#[test]
fn transfer_rejects_any_out_of_range_index() {
    let messages: Vec<u32> = vec![5, 6];
    assert_eq!(
        PKEObliviousTransfer::eval(messages.clone(), 17),
        Err(OTError::InvalidIndex)
    );
    assert_eq!(
        PKEObliviousTransfer::eval(messages, usize::MAX),
        Err(OTError::InvalidIndex)
    );
    assert_eq!(PKEObliviousTransfer::eval(vec![], 0), Err(OTError::InvalidIndex));
}
