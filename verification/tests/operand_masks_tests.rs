use test_generator::iced_codes::{
    MNEMONIC_CALL, MNEMONIC_LEA, MNEMONIC_MOV, MNEMONIC_POP, MNEMONIC_PUSH, REGISTER_DS, REGISTER_ES,
    REGISTER_SS,
};
use test_generator::operand_masks::{
    displacement_segment, ea_mask_shift, scale_shift, segment_limit_mask, DisplacementSegment,
};

#[test]
fn scales_shift_by_their_logarithm() {
    assert_eq!(scale_shift(1), 0);
    assert_eq!(scale_shift(2), 1);
    assert_eq!(scale_shift(4), 2);
    assert_eq!(scale_shift(8), 3);
    assert_eq!(scale_shift(3), 0);
}

#[test]
fn segment_limits_combine_by_and() {
    assert_eq!(segment_limit_mask(&[]), 0xFFFF_FFFF);
    assert_eq!(segment_limit_mask(&[Some(0xFFFF), None, Some(0x0FFF_FFFF)]), 0xFFFF);
    assert_eq!(segment_limit_mask(&[Some(0xF0F0), Some(0x0FF0)]), 0x00F0);
}

#[test]
fn each_extra_ea_register_shifts_once_more() {
    assert_eq!(ea_mask_shift(4, 0), 2);
    assert_eq!(ea_mask_shift(4, 1), 2);
    assert_eq!(ea_mask_shift(4, 2), 3);
    assert_eq!(ea_mask_shift(1, 3), 2);
}

#[test]
fn displacement_segments_follow_the_instruction() {
    assert_eq!(displacement_segment(&[REGISTER_DS], MNEMONIC_MOV), DisplacementSegment::Masked(REGISTER_DS));
    assert_eq!(displacement_segment(&[REGISTER_DS, REGISTER_ES], MNEMONIC_MOV), DisplacementSegment::Multiple);
    // POP [mem] touches the memory operand's segment, then the stack.
    assert_eq!(displacement_segment(&[REGISTER_DS, REGISTER_SS], MNEMONIC_POP), DisplacementSegment::Masked(REGISTER_DS));
    assert_eq!(
        displacement_segment(&[REGISTER_ES, REGISTER_SS, REGISTER_SS], MNEMONIC_POP),
        DisplacementSegment::Masked(REGISTER_ES)
    );
    assert_eq!(displacement_segment(&[REGISTER_SS, REGISTER_DS], MNEMONIC_PUSH), DisplacementSegment::Masked(REGISTER_SS));
    assert_eq!(displacement_segment(&[REGISTER_DS, REGISTER_SS], MNEMONIC_CALL), DisplacementSegment::Masked(REGISTER_DS));
    assert_eq!(displacement_segment(&[], MNEMONIC_LEA), DisplacementSegment::Unmasked);
    assert_eq!(displacement_segment(&[], MNEMONIC_MOV), DisplacementSegment::Missing);
}
