use anvil_firehose::mem::firehose::{new_tracer, PrinterTracer, Tracer};
use anvil_firehose::u256::Uint256;

#[test]
fn mem_printer_block_lines() {
    let mut t = PrinterTracer::new();
    assert!(t.enabled());
    assert_eq!(t.record_init(), "FIRE INIT 2.1 anvil 1.0");
    assert_eq!(t.start_block(1), "FIRE BEGIN_BLOCK 1");
    assert_eq!(t.finalize_block(1), "FIRE FINALIZE_BLOCK 1");
    assert_eq!(t.end_block(&Uint256::from_u64(1), 600, "{\"a\":1}"), "FIRE END_BLOCK 1 600 {\"a\":1}");
}

#[test]
fn mem_new_tracer() {
    let mut off = new_tracer(false);
    assert!(!off.enabled());
    assert!(matches!(off, Tracer::NoOp(_)));
    assert!(off.start_block(1).is_none());
    assert!(off.record_init().is_none());
    let mut on = new_tracer(true);
    assert!(on.enabled());
    assert_eq!(on.finalize_block(9).unwrap(), "FIRE FINALIZE_BLOCK 9");
    assert_eq!(on.end_block(&Uint256::from_u64(0), 0, "").unwrap(), "FIRE END_BLOCK 0 0 ");
}
