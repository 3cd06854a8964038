use obce::codec::{decode_word, encode_args, Args, InputShape, OutputValue};
use obce::hash::into_u16;
use obce::ids::composite_id;
use obce::mock::{MockError, MockExtension, MockRegistry};

fn method_id() -> u32 {
    composite_id(123, into_u16("method"))
}

fn another_method_id() -> u32 {
    composite_id(123, 456)
}

#[derive(Clone)]
struct SimpleMock;

impl MockExtension for SimpleMock {
    fn call(&mut self, _composite_id: u32, args: Args) -> OutputValue {
        match args {
            Args::Pair(val, another_val) => OutputValue::Word(val + another_val),
            Args::Single(val) => OutputValue::Word(val),
            Args::Unit => OutputValue::Unit,
        }
    }
}

#[derive(Clone, Default)]
struct State {
    call_count: u32,
}

impl MockExtension for State {
    fn call(&mut self, _composite_id: u32, _args: Args) -> OutputValue {
        self.call_count += 1;
        OutputValue::Word(self.call_count)
    }
}

struct InternalCalls;

impl InternalCalls {
    fn method(&mut self, val: u32, another_val: u32) -> u32 {
        val + another_val
    }

    fn another_method(&mut self, val: u32) -> u32 {
        self.method(val, val)
    }
}

impl MockExtension for InternalCalls {
    fn call(&mut self, composite_id: u32, args: Args) -> OutputValue {
        if composite_id == another_method_id() {
            match args {
                Args::Single(val) => OutputValue::Word(self.another_method(val)),
                _ => OutputValue::Unit,
            }
        } else {
            match args {
                Args::Pair(val, another_val) => OutputValue::Word(self.method(val, another_val)),
                _ => OutputValue::Unit,
            }
        }
    }
}

#[test]
fn mock_call_contract() {
    let mut registry: MockRegistry<SimpleMock> = MockRegistry::new();
    registry
        .register_handler(method_id(), InputShape::Pair, SimpleMock)
        .unwrap();
    let output = registry
        .dispatch(method_id(), &encode_args(&Args::Pair(100, 200)))
        .unwrap();
    assert_eq!(decode_word(&output), Some(300));
}

#[test]
fn mock_call_contract_keeps_state() {
    let mut registry: MockRegistry<State> = MockRegistry::new();
    registry
        .register_handler(method_id(), InputShape::Pair, State::default())
        .unwrap();
    let input = encode_args(&Args::Pair(100, 200));
    let first = registry.dispatch(method_id(), &input).unwrap();
    assert_eq!(decode_word(&first), Some(1));
    let second = registry.dispatch(method_id(), &input).unwrap();
    assert_eq!(decode_word(&second), Some(2));
}

#[test]
fn mock_call_contract_internal_calls() {
    let mut registry: MockRegistry<InternalCalls> = MockRegistry::new();
    registry
        .register_handler(another_method_id(), InputShape::Single, InternalCalls)
        .unwrap();
    let output = registry
        .dispatch(another_method_id(), &encode_args(&Args::Single(200)))
        .unwrap();
    assert_eq!(decode_word(&output), Some(400));
}

#[test]
fn mock_dispatch_to_unregistered_id_fails() {
    let mut registry: MockRegistry<SimpleMock> = MockRegistry::new();
    registry
        .register_handler(method_id(), InputShape::Pair, SimpleMock)
        .unwrap();
    let verdict = registry.dispatch(another_method_id(), &encode_args(&Args::Single(200)));
    assert_eq!(verdict, Err(MockError::UnregisteredChainExtension));
}

#[test]
fn mock_rejects_colliding_registrations() {
    let mut registry: MockRegistry<SimpleMock> = MockRegistry::new();
    registry
        .register_handler(method_id(), InputShape::Pair, SimpleMock)
        .unwrap();
    // The chosen policy: a second registration under a taken id is
    // rejected and the first one keeps answering.
    let second = registry.register_handler(method_id(), InputShape::Single, SimpleMock);
    assert_eq!(second, Err(MockError::DuplicateId));
    assert!(registry.is_registered(method_id()));
    let output = registry
        .dispatch(method_id(), &encode_args(&Args::Pair(1, 2)))
        .unwrap();
    assert_eq!(decode_word(&output), Some(3));
}

#[test]
fn mock_resolves_descriptor_table_metadata() {
    let table = obce::dispatch::DescriptorTable {
        extension_id: 123,
        methods: vec![
            obce::dispatch::MethodDescriptor {
                method_id: into_u16("method"),
                input_shape: InputShape::Pair,
                weight_policy: obce::weight::WeightPolicy::NoCharge,
                uses_ret_val: false,
                taxonomy: obce::error::ErrorTaxonomy::empty(),
            },
            obce::dispatch::MethodDescriptor {
                method_id: 456,
                input_shape: InputShape::Single,
                weight_policy: obce::weight::WeightPolicy::NoCharge,
                uses_ret_val: false,
                taxonomy: obce::error::ErrorTaxonomy::empty(),
            },
        ],
        cost_table: vec![],
    };
    let mut registry: MockRegistry<SimpleMock> = MockRegistry::new();
    registry.register_extension(&table, SimpleMock).unwrap();
    let summed = registry
        .dispatch(method_id(), &encode_args(&Args::Pair(100, 200)))
        .unwrap();
    assert_eq!(decode_word(&summed), Some(300));
    let echoed = registry
        .dispatch(another_method_id(), &encode_args(&Args::Single(5)))
        .unwrap();
    assert_eq!(decode_word(&echoed), Some(5));
}

#[test]
fn mock_rejects_whole_table_on_collision() {
    let table = obce::dispatch::DescriptorTable {
        extension_id: 123,
        methods: vec![
            obce::dispatch::MethodDescriptor {
                method_id: into_u16("method"),
                input_shape: InputShape::Pair,
                weight_policy: obce::weight::WeightPolicy::NoCharge,
                uses_ret_val: false,
                taxonomy: obce::error::ErrorTaxonomy::empty(),
            },
            obce::dispatch::MethodDescriptor {
                method_id: 456,
                input_shape: InputShape::Single,
                weight_policy: obce::weight::WeightPolicy::NoCharge,
                uses_ret_val: false,
                taxonomy: obce::error::ErrorTaxonomy::empty(),
            },
        ],
        cost_table: vec![],
    };
    let mut registry: MockRegistry<SimpleMock> = MockRegistry::new();
    registry
        .register_handler(another_method_id(), InputShape::Single, SimpleMock)
        .unwrap();
    let verdict = registry.register_extension(&table, SimpleMock);
    assert_eq!(verdict, Err(MockError::DuplicateId));
    // Nothing of the table was registered; the prior handler answers.
    assert!(!registry.is_registered(method_id()));
    let echoed = registry
        .dispatch(another_method_id(), &encode_args(&Args::Single(9)))
        .unwrap();
    assert_eq!(decode_word(&echoed), Some(9));
}

#[test]
fn mock_rejects_undecodable_input() {
    let mut registry: MockRegistry<SimpleMock> = MockRegistry::new();
    registry
        .register_handler(method_id(), InputShape::Pair, SimpleMock)
        .unwrap();
    let verdict = registry.dispatch(method_id(), &[1, 2, 3]);
    assert_eq!(verdict, Err(MockError::DecodingFailed));
}
