use graph_substreams::chain::{
    BlockStreamEvent, Mapper, NodeCapabilities, SubstreamsError,
};
use graph_substreams::substreams::{
    Any, BlockScopedData, Clock, Data, ForkStep, ModuleOutput, StoreDeltas,
};
use graph_substreams::uniswap::{EntitiesChanges, EntityChange};

fn map_output(bytes: Vec<u8>) -> ModuleOutput {
    ModuleOutput {
        name: "map_changes".to_string(),
        data: Some(Data::MapOutput(Any {
            type_url: "type.googleapis.com/uniswap.types.v1.EntitiesChanges".to_string(),
            value: bytes,
        })),
    }
}

fn store_output() -> ModuleOutput {
    ModuleOutput {
        name: "store_pools".to_string(),
        data: Some(Data::StoreDeltas(StoreDeltas { deltas: vec![] })),
    }
}

fn message(outputs: Vec<ModuleOutput>) -> BlockScopedData {
    BlockScopedData {
        outputs,
        clock: Some(Clock { id: "0a0b".to_string(), number: 12369621 }),
        step: 1,
        cursor: "c1".to_string(),
    }
}

#[test]
fn no_output_gives_no_event() {
    let r = Mapper {}.prepare_block_stream_event(&message(vec![]));
    assert!(matches!(r, Ok(None)));
}

#[test]
fn several_outputs_are_refused() {
    let r = Mapper {}.prepare_block_stream_event(&message(vec![map_output(vec![]), store_output()]));
    assert!(matches!(r, Err(SubstreamsError::MultipleModuleOutputError)));
}

#[test]
fn store_output_is_refused() {
    let r = Mapper {}.prepare_block_stream_event(&message(vec![store_output()]));
    assert!(matches!(r, Err(SubstreamsError::UnexpectedStoreDeltaOutput)));
}

#[test]
fn map_output_becomes_a_block() {
    let r = Mapper {}.prepare_block_stream_event(&message(vec![map_output(vec![10, 2, 8, 1])]));
    let pending = match r {
        Ok(Some(p)) => p,
        _ => panic!("expected a pending block"),
    };
    assert_eq!(pending.block_num, 12369621);
    assert_eq!(pending.block_hash.0, vec![0x0a, 0x0b]);
    assert_eq!(pending.cursor, "c1");
    assert_eq!(pending.payload, vec![10, 2, 8, 1]);

    let changes = EntitiesChanges {
        entity_changes: vec![EntityChange {
            entity: "Pool".to_string(),
            id: vec![1],
            ordinal: 3,
            operation: 1,
            fields: vec![],
        }],
    };
    let BlockStreamEvent::ProcessBlock(bwt, cursor) = pending.into_block_stream_event(changes);
    assert_eq!(bwt.block.block_num, 12369621);
    assert_eq!(bwt.block.block_hash.0, vec![0x0a, 0x0b]);
    assert_eq!(bwt.block.parent_block_num, 0);
    assert!(bwt.block.parent_block_hash.0.is_empty());
    assert_eq!(bwt.block.entities_changes.entity_changes.len(), 1);
    assert_eq!(bwt.block.entities_changes.entity_changes[0].entity, "Pool");
    assert_eq!(cursor.0, "c1");
}

#[test]
fn every_known_step_is_mapped() {
    for step in [0, 1, 2, 4] {
        let mut m = message(vec![]);
        m.step = step;
        assert!(matches!(Mapper {}.prepare_block_stream_event(&m), Ok(None)));
    }
    assert_eq!(ForkStep::from_i32(4), Some(ForkStep::StepIrreversible));
    assert_eq!(ForkStep::from_i32(2), Some(ForkStep::StepUndo));
    assert_eq!(ForkStep::from_i32(3), None);
    assert_eq!(ForkStep::from_i32(0), Some(ForkStep::StepUnknown));
}

#[test]
fn node_capabilities() {
    let c = NodeCapabilities::from_str("anything").unwrap();
    assert_eq!(c, NodeCapabilities {});
    assert_eq!(c.to_string(), "substream");
    let sources: [u8; 2] = [1, 2];
    assert_eq!(NodeCapabilities::from_data_sources(&sources), c);
}
