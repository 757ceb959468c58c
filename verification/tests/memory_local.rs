use p3_baby_bear::BabyBear;
use p3_field::PrimeField32;
use p3_matrix::dense::RowMajorMatrix;
use p3_matrix::Matrix;
use sp1_air::builder::ConstraintBuilder;
use sp1_air::bus::{is_balanced, unmatched};
use sp1_air::field::MODULUS;
use sp1_air::interaction::{BusMessage, InteractionKind, InteractionScope};
use sp1_air::memory::local::{
    compute_padded_height, ExecutionRecord, KeccakPermuteEvent, MemoryLocalChip,
    MemoryLocalEvent, MemoryLocalInitCols, NUM_MEMORY_LOCAL_INIT_COLS,
};
use sp1_air::memory::{MemoryChipType, MemoryRecord};
use sp1_air::word::Word;

fn record(shard: u32, clk: u32, value: u32) -> MemoryRecord {
    MemoryRecord { shard, clk, value }
}

fn event(addr: u32, initial: MemoryRecord, last: MemoryRecord) -> MemoryLocalEvent {
    MemoryLocalEvent { addr, initial_mem_access: initial, final_mem_access: last }
}

fn cells(trace: &RowMajorMatrix<BabyBear>) -> Vec<u32> {
    trace.values.iter().map(|x| x.as_canonical_u32()).collect()
}

/// What the execution of a program of three additions, `x29 = 5`,
/// `x30 = 37` and `x31 = x30 + x29`, records for its only shard: the three
/// registers that it writes, and register zero, which it reads.
fn simple_program_shard() -> ExecutionRecord {
    ExecutionRecord {
        local_memory_access: vec![
            event(0, record(0, 0, 0), record(1, 5, 0)),
            event(29, record(0, 0, 0), record(1, 10, 5)),
            event(30, record(0, 0, 0), record(1, 9, 37)),
            event(31, record(0, 0, 0), record(1, 11, 42)),
        ],
        keccak_permute_events: vec![],
    }
}

fn global_messages(chip: &MemoryLocalChip, shard: &ExecutionRecord) -> Vec<BusMessage> {
    let mut builder = ConstraintBuilder::new();
    chip.eval(&mut builder);
    let trace = chip.generate_trace(shard, &mut ExecutionRecord::default());
    builder
        .matrix_messages(&trace, &vec![])
        .into_iter()
        .filter(|m| m.scope == InteractionScope::Global)
        .collect()
}

#[test]
fn test_local_memory_generate_trace() {
    let shard = simple_program_shard();

    let chip: MemoryLocalChip = MemoryLocalChip::new(MemoryChipType::Initialize);

    let trace: RowMajorMatrix<BabyBear> =
        chip.generate_trace(&shard, &mut ExecutionRecord::default());
    println!("{:?}", trace.values);
    assert_eq!(trace.width(), 8);
    assert_eq!(trace.height(), 16);
    assert_eq!(&cells(&trace)[0..8], &[0, 0, 0, 0, 0, 0, 0, 1]);
    assert_eq!(&cells(&trace)[8..16], &[0, 0, 29, 0, 0, 0, 0, 1]);

    let chip: MemoryLocalChip = MemoryLocalChip::new(MemoryChipType::Finalize);
    let trace: RowMajorMatrix<BabyBear> =
        chip.generate_trace(&shard, &mut ExecutionRecord::default());
    println!("{:?}", trace.values);
    assert_eq!(trace.width(), 8);
    assert_eq!(trace.height(), 16);
    assert_eq!(&cells(&trace)[0..8], &[1, 5, 0, 0, 0, 0, 0, 1]);
    assert_eq!(&cells(&trace)[8..16], &[1, 10, 29, 5, 0, 0, 0, 1]);
    assert_eq!(&cells(&trace)[16..24], &[1, 9, 30, 37, 0, 0, 0, 1]);
    assert_eq!(&cells(&trace)[24..32], &[1, 11, 31, 42, 0, 0, 0, 1]);
    assert!(cells(&trace)[32..].iter().all(|x| *x == 0));

    for mem_event in shard.local_memory_access {
        println!("{:?}", mem_event);
    }
}

/// Two shards: the first writes the words at two addresses, the second
/// reads one of them and writes a third.
fn two_shards() -> Vec<ExecutionRecord> {
    vec![
        ExecutionRecord {
            local_memory_access: vec![
                event(100, record(0, 0, 0), record(1, 8, 0xdeadbeef)),
                event(104, record(0, 0, 0), record(1, 12, 7)),
            ],
            keccak_permute_events: vec![],
        },
        ExecutionRecord {
            local_memory_access: vec![
                event(100, record(1, 8, 0xdeadbeef), record(2, 4, 0xdeadbeef)),
                event(108, record(0, 0, 0), record(2, 8, 1)),
            ],
            keccak_permute_events: vec![],
        },
    ]
}

#[test]
fn test_memory_lookup_interactions() {
    let shards = two_shards();
    assert_eq!(shards.len(), 2);

    // All global memory messages of the local memory tables of both shards.
    let mut messages = vec![];
    for shard in shards.iter() {
        for kind in [MemoryChipType::Initialize, MemoryChipType::Finalize] {
            messages.extend(global_messages(&MemoryLocalChip::new(kind), shard));
        }
    }
    assert!(messages.iter().all(|m| m.kind == InteractionKind::Memory));

    // What the first shard leaves at address 100 is what the second finds
    // there: the two messages cancel. The states before the first touch and
    // after the last touch of each address stay; the global memory tables
    // take them up.
    let open = unmatched(&messages);
    let sends: Vec<Vec<u32>> =
        open.iter().filter(|u| u.net == 1).map(|u| u.values.clone()).collect();
    let receives: Vec<Vec<u32>> =
        open.iter().filter(|u| u.net == MODULUS - 1).map(|u| u.values.clone()).collect();
    assert_eq!(open.len(), sends.len() + receives.len());
    // Sent: the initial state of every address, which is the same tuple for
    // addresses that were never written before.
    assert_eq!(
        sends,
        vec![
            vec![0, 0, 100, 0, 0, 0, 0],
            vec![0, 0, 104, 0, 0, 0, 0],
            vec![0, 0, 108, 0, 0, 0, 0],
        ]
    );
    assert_eq!(
        receives,
        vec![
            vec![1, 12, 104, 7, 0, 0, 0],
            vec![2, 4, 100, 0xef, 0xbe, 0xad, 0xde],
            vec![2, 8, 108, 1, 0, 0, 0],
        ]
    );
}

#[test]
fn test_byte_lookup_interactions() {
    let shards = two_shards();
    assert_eq!(shards.len(), 2);

    // The local memory tables state no byte interaction: none of their
    // messages is of that kind, in either shard.
    for shard in shards.iter() {
        for kind in [MemoryChipType::Initialize, MemoryChipType::Finalize] {
            let chip = MemoryLocalChip::new(kind);
            let mut builder = ConstraintBuilder::new();
            chip.eval(&mut builder);
            let trace = chip.generate_trace(shard, &mut ExecutionRecord::default());
            let messages = builder.matrix_messages(&trace, &vec![]);
            assert_eq!(messages.len(), 2 * 16);
            assert!(messages.iter().all(|m| m.kind != InteractionKind::Byte));
            assert_eq!(builder.check_matrix(&trace, &vec![]), None);
        }
    }
}

#[test]
fn chained_shards_cancel_on_the_global_bus() {
    // Shard 0 writes V to address A at clock c0 and never touches A again.
    // Shard 1 reads A.
    let a = 0x1000;
    let v = 0xcafe_f00d;
    let c0 = 24;
    let shard0 = ExecutionRecord {
        local_memory_access: vec![event(a, record(0, 0, 0), record(0, c0, v))],
        keccak_permute_events: vec![],
    };
    let shard1 = ExecutionRecord {
        local_memory_access: vec![event(a, record(0, c0, v), record(1, 4, v))],
        keccak_permute_events: vec![],
    };
    assert_eq!(
        shard0.local_memory_access[0].final_mem_access,
        shard1.local_memory_access[0].initial_mem_access
    );
    assert_eq!(shard0.local_memory_access[0].final_mem_access, record(0, c0, v));

    let finalize0 = global_messages(&MemoryLocalChip::new(MemoryChipType::Finalize), &shard0);
    let init1 = global_messages(&MemoryLocalChip::new(MemoryChipType::Initialize), &shard1);
    let expected = vec![0, c0, a, 0x0d, 0xf0, 0xfe, 0xca];
    // The real row comes first; padding rows carry multiplicity zero.
    assert_eq!(finalize0[0].values, expected);
    assert!(!finalize0[0].is_send);
    assert_eq!(finalize0[0].multiplicity, 1);
    assert_eq!(init1[0].values, expected);
    assert!(init1[0].is_send);
    assert_eq!(init1[0].multiplicity, 1);
    assert!(finalize0[1..].iter().all(|m| m.multiplicity == 0));

    let mut chain = finalize0.clone();
    chain.extend(init1.clone());
    assert!(is_balanced(&chain));

    // If shard 1 claimed to find another value, the bus would not balance.
    let forged = ExecutionRecord {
        local_memory_access: vec![event(a, record(0, c0, v + 1), record(1, 4, v + 1))],
        keccak_permute_events: vec![],
    };
    let mut broken = finalize0.clone();
    broken.extend(global_messages(&MemoryLocalChip::new(MemoryChipType::Initialize), &forged));
    assert!(!is_balanced(&broken));
    assert_eq!(unmatched(&broken).len(), 2);
    // The same for another clock.
    let late = ExecutionRecord {
        local_memory_access: vec![event(a, record(0, c0 + 4, v), record(1, 4, v))],
        keccak_permute_events: vec![],
    };
    let mut broken = finalize0;
    broken.extend(global_messages(&MemoryLocalChip::new(MemoryChipType::Initialize), &late));
    assert!(!is_balanced(&broken));
}

#[test]
fn local_scope_is_the_mirror_of_the_global_scope() {
    let shard = simple_program_shard();
    for kind in [MemoryChipType::Initialize, MemoryChipType::Finalize] {
        let chip = MemoryLocalChip::new(kind);
        let mut builder = ConstraintBuilder::new();
        chip.eval(&mut builder);
        assert_eq!(builder.constraints.len(), 1);
        assert_eq!(builder.interactions.len(), 2);
        let values = chip.generate_values(&shard);
        let messages = builder.trace_messages(&values, 8, &vec![]);
        for pair in messages.chunks(2) {
            assert_eq!(pair[0].scope, InteractionScope::Global);
            assert_eq!(pair[1].scope, InteractionScope::Local);
            assert_eq!(pair[0].values, pair[1].values);
            assert_eq!(pair[0].multiplicity, pair[1].multiplicity);
            // Initialize sends globally and receives locally; finalize the
            // other way round.
            assert_eq!(pair[0].is_send, kind == MemoryChipType::Initialize);
            assert_eq!(pair[1].is_send, kind == MemoryChipType::Finalize);
        }
        assert_eq!(builder.check_trace(&values, 8, &vec![]), None);
    }
}

#[test]
fn the_trace_holds_precompile_events_after_instruction_events() {
    let shard = ExecutionRecord {
        local_memory_access: vec![event(4, record(1, 1, 1), record(1, 2, 2))],
        keccak_permute_events: vec![
            KeccakPermuteEvent {
                local_mem_access: vec![
                    event(8, record(1, 3, 3), record(1, 4, 4)),
                    event(12, record(1, 5, 5), record(1, 6, 6)),
                ],
            },
            KeccakPermuteEvent { local_mem_access: vec![] },
            KeccakPermuteEvent { local_mem_access: vec![event(16, record(1, 7, 7), record(1, 8, 8))] },
        ],
    };
    let events = shard.collect_local_events();
    assert_eq!(events.iter().map(|e| e.addr).collect::<Vec<_>>(), vec![4, 8, 12, 16]);
    let chip = MemoryLocalChip::new(MemoryChipType::Initialize);
    let values = chip.generate_values(&shard);
    assert_eq!(values.len(), 16 * 8);
    assert_eq!(&values[0..8], &[1, 1, 4, 1, 0, 0, 0, 1]);
    assert_eq!(&values[8..16], &[1, 3, 8, 3, 0, 0, 0, 1]);
    assert_eq!(&values[16..24], &[1, 5, 12, 5, 0, 0, 0, 1]);
    assert_eq!(&values[24..32], &[1, 7, 16, 7, 0, 0, 0, 1]);
    assert!(values[32..].iter().all(|x| *x == 0));
    let trace = chip.generate_trace(&shard, &mut ExecutionRecord::default());
    assert_eq!(cells(&trace), values);
    assert_eq!(trace.width, 8);
}

#[test]
fn the_trace_is_padded_to_a_power_of_two() {
    let chip = MemoryLocalChip::new(MemoryChipType::Finalize);
    for n in [1usize, 15, 16, 17, 32, 33, 100] {
        let shard = ExecutionRecord {
            local_memory_access: (0..n as u32)
                .map(|i| event(4 * i, record(0, 0, 0), record(1, i, i)))
                .collect(),
            keccak_permute_events: vec![],
        };
        let trace = chip.generate_trace(&shard, &mut ExecutionRecord::default());
        let height = trace.values.len() / 8;
        assert_eq!(height, compute_padded_height(n));
        assert!(height.is_power_of_two());
        assert!(height >= n && height >= 16);
        let cells = cells(&trace);
        for i in 0..height {
            let real = if i < n { 1 } else { 0 };
            assert_eq!(cells[8 * i + 7], real);
        }
    }
    assert_eq!(compute_padded_height(0), 16);
    assert_eq!(compute_padded_height(1), 16);
    assert_eq!(compute_padded_height(16), 16);
    assert_eq!(compute_padded_height(17), 32);
    assert_eq!(compute_padded_height(32), 32);
    assert_eq!(compute_padded_height(33), 64);
    assert_eq!(compute_padded_height(1000), 1024);
}

#[test]
fn a_table_is_included_if_the_shard_touched_memory() {
    let chip = MemoryLocalChip::new(MemoryChipType::Initialize);
    assert!(!chip.included(&ExecutionRecord::default()));
    assert!(chip.included(&simple_program_shard()));
    // Events of precompile runs count.
    let only_precompile = ExecutionRecord {
        local_memory_access: vec![],
        keccak_permute_events: vec![
            KeccakPermuteEvent { local_mem_access: vec![] },
            KeccakPermuteEvent { local_mem_access: vec![event(8, record(1, 3, 3), record(1, 4, 4))] },
        ],
    };
    assert!(chip.included(&only_precompile));
    // Runs that touched nothing do not.
    let empty_runs = ExecutionRecord {
        local_memory_access: vec![],
        keccak_permute_events: vec![KeccakPermuteEvent { local_mem_access: vec![] }],
    };
    assert!(!chip.included(&empty_runs));
    assert!(chip.included_phase1());
    assert!(MemoryLocalChip::new(MemoryChipType::Finalize).included_phase1());
}

#[test]
fn names_and_width() {
    let init = MemoryLocalChip::new(MemoryChipType::Initialize);
    let fin = MemoryLocalChip::new(MemoryChipType::Finalize);
    assert_eq!(init.kind, MemoryChipType::Initialize);
    assert_eq!(fin.kind, MemoryChipType::Finalize);
    assert_eq!(init.name(), "MemoryLocalInit");
    assert_eq!(fin.name(), "MemoryLocalFinalize");
    assert_eq!(init.width(), 8);
    assert_eq!(fin.width(), NUM_MEMORY_LOCAL_INIT_COLS);
    assert_eq!(NUM_MEMORY_LOCAL_INIT_COLS, 8);
}

#[test]
fn a_row_holds_the_state_of_its_table() {
    let e = event(0x20, record(3, 77, 0x01020304), record(4, 99, 0xa0b0c0d0));
    let init = MemoryLocalChip::new(MemoryChipType::Initialize);
    let fin = MemoryLocalChip::new(MemoryChipType::Finalize);
    assert_eq!(init.event_to_row(&e), [3, 77, 0x20, 4, 3, 2, 1, 1]);
    assert_eq!(fin.event_to_row(&e), [4, 99, 0x20, 0xd0, 0xc0, 0xb0, 0xa0, 1]);
    let cols = MemoryLocalInitCols { shard: 1u32, clk: 2, addr: 3, value: Word([4, 5, 6, 7]), is_real: 1 };
    assert_eq!(cols.to_row(), [1, 2, 3, 4, 5, 6, 7, 1]);
}

#[test]
fn records_that_are_no_field_elements_do_not_fit() {
    let good = event(MODULUS - 1, record(MODULUS - 1, MODULUS - 1, u32::MAX), record(0, 0, 0));
    assert!(good.check_fits(MemoryChipType::Initialize));
    assert!(good.check_fits(MemoryChipType::Finalize));
    let bad_shard = event(0, record(MODULUS, 0, 0), record(0, 0, 0));
    assert!(!bad_shard.check_fits(MemoryChipType::Initialize));
    assert!(bad_shard.check_fits(MemoryChipType::Finalize));
    let bad_clk = event(0, record(0, 0, 0), record(0, MODULUS, 0));
    assert!(bad_clk.check_fits(MemoryChipType::Initialize));
    assert!(!bad_clk.check_fits(MemoryChipType::Finalize));
    let bad_addr = event(u32::MAX, record(0, 0, 0), record(0, 0, 0));
    assert!(!bad_addr.check_fits(MemoryChipType::Initialize));
    let shard = ExecutionRecord {
        local_memory_access: vec![good],
        keccak_permute_events: vec![KeccakPermuteEvent { local_mem_access: vec![bad_clk] }],
    };
    assert!(shard.check_fits(MemoryChipType::Initialize));
    assert!(!shard.check_fits(MemoryChipType::Finalize));
}

#[test]
fn generate_trace_leaves_the_output_record_alone() {
    let shard = simple_program_shard();
    let mut output = ExecutionRecord {
        local_memory_access: vec![event(1, record(1, 1, 1), record(2, 2, 2))],
        keccak_permute_events: vec![],
    };
    let chip = MemoryLocalChip::new(MemoryChipType::Initialize);
    let _ = chip.generate_trace(&shard, &mut output);
    assert_eq!(output.local_memory_access, vec![event(1, record(1, 1, 1), record(2, 2, 2))]);
    assert!(output.keccak_permute_events.is_empty());
}
