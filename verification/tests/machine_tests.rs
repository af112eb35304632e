use nftycoon::{
    decode, encode, process_instruction, Handle, Identity, Instruction, IoError, Metadata,
    ProcessError, Record, ResourceFacts, StateMachine, TransitionError,
};

fn o() -> Identity {
    Identity::new([1u8; 32])
}

fn p() -> Identity {
    Identity::new([2u8; 32])
}

fn stranger() -> Identity {
    Identity::new([3u8; 32])
}

fn exempt() -> ResourceFacts {
    ResourceFacts { balance: 1_000_000, size: 128, exempt: true }
}

fn not_exempt() -> ResourceFacts {
    ResourceFacts { balance: 0, size: 128, exempt: false }
}

fn sword() -> Metadata {
    Metadata { name: "Sword".to_string(), description: "+5 atk".to_string() }
}

fn empty_storage() -> Handle {
    Handle::new(Vec::new(), 128, true)
}

fn active_storage(owner: Identity) -> Handle {
    let mut handle = empty_storage();
    let machine = StateMachine::new();
    assert_eq!(machine.apply(Instruction::Initialize, &mut handle, &owner, &exempt()), Ok(()));
    handle
}

#[test]
fn scenario_initialize_on_empty_storage() {
    let machine = StateMachine::new();
    let mut handle = empty_storage();
    assert_eq!(machine.apply(Instruction::Initialize, &mut handle, &o(), &exempt()), Ok(()));
    assert_eq!(
        decode(handle.read()),
        Ok(Record { owner: o(), metadata: Metadata::default(), initialized: true })
    );
    assert_eq!(handle.read().len(), 41);
}

#[test]
fn scenario_set_metadata_by_owner() {
    let machine = StateMachine::new();
    let mut handle = active_storage(o());
    assert_eq!(
        machine.apply(Instruction::SetMetadata(sword()), &mut handle, &o(), &exempt()),
        Ok(())
    );
    let record = decode(handle.read()).unwrap();
    assert_eq!(record.metadata.name, "Sword");
    assert_eq!(record.metadata.description, "+5 atk");
    assert_eq!(record.owner, o());
    assert!(record.initialized);
}

#[test]
fn scenario_transfer_then_former_owner_is_unauthorized() {
    let machine = StateMachine::new();
    let mut handle = active_storage(o());
    assert_eq!(machine.apply(Instruction::Transfer(p()), &mut handle, &o(), &exempt()), Ok(()));
    let record = decode(handle.read()).unwrap();
    assert_eq!(record.owner, p());
    assert_eq!(record.metadata, Metadata::default());
    let before = handle.read().to_vec();
    assert_eq!(
        machine.apply(Instruction::SetMetadata(sword()), &mut handle, &o(), &exempt()),
        Err(TransitionError::Unauthorized)
    );
    assert_eq!(handle.read(), &before[..]);
    assert_eq!(
        machine.apply(Instruction::SetMetadata(sword()), &mut handle, &p(), &exempt()),
        Ok(())
    );
    assert_eq!(
        decode(handle.read()),
        Ok(Record { owner: p(), metadata: sword(), initialized: true })
    );
}

#[test]
fn initialize_twice_is_rejected() {
    let machine = StateMachine::new();
    let mut handle = empty_storage();
    assert_eq!(machine.apply(Instruction::Initialize, &mut handle, &o(), &exempt()), Ok(()));
    let before = handle.read().to_vec();
    assert_eq!(
        machine.apply(Instruction::Initialize, &mut handle, &o(), &exempt()),
        Err(TransitionError::AlreadyInitialized)
    );
    assert_eq!(
        machine.apply(Instruction::Initialize, &mut handle, &p(), &not_exempt()),
        Err(TransitionError::AlreadyInitialized)
    );
    assert_eq!(handle.read(), &before[..]);
}

#[test]
fn initialize_on_zeroed_storage() {
    let machine = StateMachine::new();
    let mut handle = Handle::new(vec![0u8; 100], 100, true);
    assert_eq!(machine.apply(Instruction::Initialize, &mut handle, &o(), &exempt()), Ok(()));
    assert_eq!(handle.read(), &encode(&Record::fresh(o()))[..]);
}

#[test]
fn initialize_over_record_whose_flag_is_not_set() {
    let machine = StateMachine::new();
    let stale = Record { owner: p(), metadata: sword(), initialized: false };
    let mut handle = Handle::new(encode(&stale), 128, true);
    assert_eq!(machine.apply(Instruction::Initialize, &mut handle, &o(), &exempt()), Ok(()));
    assert_eq!(decode(handle.read()), Ok(Record::fresh(o())));
}

#[test]
fn initialize_needs_writable_handle() {
    let machine = StateMachine::new();
    let mut handle = Handle::new(Vec::new(), 128, false);
    assert_eq!(
        machine.apply(Instruction::Initialize, &mut handle, &o(), &exempt()),
        Err(TransitionError::NotWritable)
    );
    assert!(handle.read().is_empty());
    let mut handle = Handle::new(encode(&Record::fresh(o())), 128, false);
    assert_eq!(
        machine.apply(Instruction::Initialize, &mut handle, &o(), &exempt()),
        Err(TransitionError::NotWritable)
    );
}

#[test]
fn uninitialized_storage_rejects_set_metadata_and_transfer() {
    let machine = StateMachine::new();
    let stale = encode(&Record { owner: o(), metadata: sword(), initialized: false });
    for data in [Vec::new(), vec![0u8; 64], stale] {
        for facts in [exempt(), not_exempt()] {
            for writable in [true, false] {
                let mut handle = Handle::new(data.clone(), 128, writable);
                assert_eq!(
                    machine.apply(Instruction::SetMetadata(sword()), &mut handle, &o(), &facts),
                    Err(TransitionError::Uninitialized)
                );
                assert_eq!(handle.read(), &data[..]);
                assert_eq!(
                    machine.apply(Instruction::Transfer(p()), &mut handle, &o(), &facts),
                    Err(TransitionError::Uninitialized)
                );
                assert_eq!(handle.read(), &data[..]);
            }
        }
    }
}

#[test]
fn unauthorized_caller_never_succeeds() {
    let machine = StateMachine::new();
    for facts in [exempt(), not_exempt()] {
        let mut handle = active_storage(o());
        let before = handle.read().to_vec();
        assert_eq!(
            machine.apply(Instruction::SetMetadata(sword()), &mut handle, &stranger(), &facts),
            Err(TransitionError::Unauthorized)
        );
        assert_eq!(handle.read(), &before[..]);
        assert_eq!(
            machine.apply(Instruction::Transfer(stranger()), &mut handle, &stranger(), &facts),
            Err(TransitionError::Unauthorized)
        );
        assert_eq!(handle.read(), &before[..]);
    }
}

#[test]
fn set_metadata_needs_exemption() {
    let machine = StateMachine::new();
    let mut handle = active_storage(o());
    let before = handle.read().to_vec();
    assert_eq!(
        machine.apply(Instruction::SetMetadata(sword()), &mut handle, &o(), &not_exempt()),
        Err(TransitionError::NotExempt)
    );
    assert_eq!(handle.read(), &before[..]);
}

#[test]
fn transfer_does_not_ask_for_exemption() {
    let machine = StateMachine::new();
    let mut handle = active_storage(o());
    assert_eq!(machine.apply(Instruction::Transfer(p()), &mut handle, &o(), &not_exempt()), Ok(()));
    assert_eq!(decode(handle.read()).unwrap().owner, p());
}

#[test]
fn transfer_keeps_metadata() {
    let machine = StateMachine::new();
    let mut handle = active_storage(o());
    assert_eq!(
        machine.apply(Instruction::SetMetadata(sword()), &mut handle, &o(), &exempt()),
        Ok(())
    );
    assert_eq!(machine.apply(Instruction::Transfer(p()), &mut handle, &o(), &exempt()), Ok(()));
    assert_eq!(
        decode(handle.read()),
        Ok(Record { owner: p(), metadata: sword(), initialized: true })
    );
}

#[test]
fn designated_authority_may_act() {
    let machine = StateMachine::with_authority(stranger());
    let mut handle = active_storage(o());
    assert_eq!(
        machine.apply(Instruction::SetMetadata(sword()), &mut handle, &stranger(), &exempt()),
        Ok(())
    );
    assert_eq!(
        machine.apply(Instruction::Transfer(p()), &mut handle, &stranger(), &exempt()),
        Ok(())
    );
    assert_eq!(
        machine.apply(Instruction::Transfer(o()), &mut handle, &o(), &exempt()),
        Err(TransitionError::Unauthorized)
    );
    assert_eq!(
        decode(handle.read()),
        Ok(Record { owner: p(), metadata: sword(), initialized: true })
    );
}

#[test]
fn authorize_owner_and_authority_only() {
    let record = Record::fresh(o());
    let owner_only = StateMachine::new();
    assert!(owner_only.authorize(&o(), &record));
    assert!(!owner_only.authorize(&p(), &record));
    let with_authority = StateMachine::with_authority(p());
    assert!(with_authority.authorize(&o(), &record));
    assert!(with_authority.authorize(&p(), &record));
    assert!(!with_authority.authorize(&stranger(), &record));
}

#[test]
fn corrupt_storage_fails_every_transition() {
    let machine = StateMachine::new();
    let mut garbage = encode(&Record::fresh(o()));
    garbage.push(9);
    for instruction in
        [Instruction::Initialize, Instruction::SetMetadata(sword()), Instruction::Transfer(p())]
    {
        let mut handle = Handle::new(garbage.clone(), 128, true);
        assert_eq!(machine.apply(instruction, &mut handle, &o(), &exempt()), Err(TransitionError::IO));
        assert_eq!(handle.read(), &garbage[..]);
    }
}

#[test]
fn record_that_does_not_fit_is_not_written() {
    let machine = StateMachine::new();
    let mut handle = Handle::new(Vec::new(), 40, true);
    assert_eq!(
        machine.apply(Instruction::Initialize, &mut handle, &o(), &exempt()),
        Err(TransitionError::IO)
    );
    assert!(handle.read().is_empty());

    let mut handle = Handle::new(encode(&Record::fresh(o())), 51, true);
    let before = handle.read().to_vec();
    assert_eq!(
        machine.apply(Instruction::SetMetadata(sword()), &mut handle, &o(), &exempt()),
        Err(TransitionError::IO)
    );
    assert_eq!(handle.read(), &before[..]);

    let mut handle = Handle::new(encode(&Record::fresh(o())), 52, true);
    assert_eq!(
        machine.apply(Instruction::SetMetadata(sword()), &mut handle, &o(), &exempt()),
        Ok(())
    );
    assert_eq!(handle.read().len(), 52);
}

#[test]
fn read_only_handle_fails_the_write() {
    let machine = StateMachine::new();
    let data = encode(&Record::fresh(o()));
    let mut handle = Handle::new(data.clone(), 128, false);
    assert_eq!(
        machine.apply(Instruction::SetMetadata(sword()), &mut handle, &o(), &exempt()),
        Err(TransitionError::IO)
    );
    assert_eq!(
        machine.apply(Instruction::Transfer(p()), &mut handle, &o(), &exempt()),
        Err(TransitionError::IO)
    );
    assert_eq!(handle.read(), &data[..]);
}

#[test]
fn checks_come_in_order() {
    let machine = StateMachine::new();
    let mut handle = Handle::new(Vec::new(), 128, false);
    assert_eq!(
        machine.apply(Instruction::SetMetadata(sword()), &mut handle, &stranger(), &not_exempt()),
        Err(TransitionError::Uninitialized)
    );
    let mut handle = Handle::new(encode(&Record::fresh(o())), 128, false);
    assert_eq!(
        machine.apply(Instruction::SetMetadata(sword()), &mut handle, &stranger(), &not_exempt()),
        Err(TransitionError::Unauthorized)
    );
    assert_eq!(
        machine.apply(Instruction::SetMetadata(sword()), &mut handle, &o(), &not_exempt()),
        Err(TransitionError::NotExempt)
    );
}

#[test]
fn set_metadata_can_shrink_the_record() {
    let machine = StateMachine::new();
    let mut handle = active_storage(o());
    assert_eq!(
        machine.apply(Instruction::SetMetadata(sword()), &mut handle, &o(), &exempt()),
        Ok(())
    );
    assert_eq!(handle.read().len(), 52);
    assert_eq!(
        machine.apply(Instruction::SetMetadata(Metadata::default()), &mut handle, &o(), &exempt()),
        Ok(())
    );
    assert_eq!(handle.read().len(), 41);
    assert_eq!(decode(handle.read()), Ok(Record::fresh(o())));
}

#[test]
fn handle_new_raises_capacity_to_data() {
    let handle = Handle::new(vec![1, 2, 3], 2, true);
    assert_eq!(handle.capacity(), 3);
    assert_eq!(handle.read(), &[1, 2, 3]);
    assert!(handle.is_writable());
    let handle = Handle::new(vec![1, 2, 3], 10, false);
    assert_eq!(handle.capacity(), 10);
    assert!(!handle.is_writable());
    assert_eq!(handle.into_bytes(), vec![1, 2, 3]);
}

#[test]
fn handle_write_replaces_or_leaves() {
    let mut handle = Handle::new(vec![1, 2, 3], 4, true);
    assert_eq!(handle.write(vec![9, 9, 9, 9]), Ok(()));
    assert_eq!(handle.read(), &[9, 9, 9, 9]);
    assert_eq!(handle.write(vec![8; 5]), Err(IoError::BufferTooSmall));
    assert_eq!(handle.read(), &[9, 9, 9, 9]);
    assert_eq!(handle.write(Vec::new()), Ok(()));
    assert!(handle.read().is_empty());
    assert_eq!(handle.capacity(), 4);

    let mut handle = Handle::new(vec![1, 2, 3], 4, false);
    assert_eq!(handle.write(vec![7]), Err(IoError::ReadOnly));
    assert_eq!(handle.write(vec![7; 9]), Err(IoError::ReadOnly));
    assert_eq!(handle.read(), &[1, 2, 3]);
}

#[test]
fn process_instruction_rejects_bad_data() {
    let mut handle = empty_storage();
    for data in [&[][..], &[3][..], &[0, 0][..], &[1, 1, 0, 0, 0][..]] {
        assert_eq!(
            process_instruction(&o(), &mut handle, data, &exempt()),
            Err(ProcessError::InvalidInstruction)
        );
        assert!(handle.read().is_empty());
    }
}

#[test]
fn process_instruction_runs_the_three_transitions() {
    let mut handle = empty_storage();
    assert_eq!(process_instruction(&o(), &mut handle, &[0], &exempt()), Ok(()));
    assert_eq!(decode(handle.read()), Ok(Record::fresh(o())));

    let data = borsh::to_vec(&(1u8, ("Sword".to_string(), "+5 atk".to_string()))).unwrap();
    assert_eq!(process_instruction(&o(), &mut handle, &data, &exempt()), Ok(()));
    assert_eq!(
        decode(handle.read()),
        Ok(Record { owner: o(), metadata: sword(), initialized: true })
    );

    let data = borsh::to_vec(&(2u8, p().to_bytes())).unwrap();
    assert_eq!(process_instruction(&o(), &mut handle, &data, &exempt()), Ok(()));
    assert_eq!(
        decode(handle.read()),
        Ok(Record { owner: p(), metadata: sword(), initialized: true })
    );
}

#[test]
fn process_instruction_surfaces_transition_errors() {
    let mut handle = empty_storage();
    let set = borsh::to_vec(&(1u8, ("Sword".to_string(), "+5 atk".to_string()))).unwrap();
    assert_eq!(
        process_instruction(&o(), &mut handle, &set, &exempt()),
        Err(ProcessError::Transition(TransitionError::Uninitialized))
    );
    assert_eq!(process_instruction(&o(), &mut handle, &[0], &exempt()), Ok(()));
    assert_eq!(
        process_instruction(&o(), &mut handle, &[0], &exempt()),
        Err(ProcessError::Transition(TransitionError::AlreadyInitialized))
    );
    assert_eq!(
        process_instruction(&p(), &mut handle, &set, &exempt()),
        Err(ProcessError::Transition(TransitionError::Unauthorized))
    );
    assert_eq!(
        process_instruction(&o(), &mut handle, &set, &not_exempt()),
        Err(ProcessError::Transition(TransitionError::NotExempt))
    );
    let mut read_only = Handle::new(Vec::new(), 128, false);
    assert_eq!(
        process_instruction(&o(), &mut read_only, &[0], &exempt()),
        Err(ProcessError::Transition(TransitionError::NotWritable))
    );
    let mut corrupt = Handle::new(vec![5u8; 10], 128, true);
    assert_eq!(
        process_instruction(&o(), &mut corrupt, &[0], &exempt()),
        Err(ProcessError::Transition(TransitionError::IO))
    );
}
