use typecheck::check_type;
use typecheck::env::TypeEnv;
use typecheck::instr::{Function, Instr, Primitive};
use typecheck::types::{Type, ValueType};
use typecheck::value::Value;

fn num_scalar() -> Value {
    Value::Num(vec![])
}

fn char_scalar() -> Value {
    Value::Char(vec![])
}

#[test]
fn seeded_input_stays_below_length_one_array() {
    let f = Function {
        instrs: vec![
            Instr::Push(num_scalar()),
            Instr::BeginArray,
            Instr::Push(num_scalar()),
            Instr::EndArray { boxed: false },
        ],
    };
    let inputs = vec![num_scalar()];
    let result = check_type(&f, &inputs);
    let expected = vec![
        Type { value: ValueType::Num, shape: Some(vec![]) },
        Type { value: ValueType::Num, shape: Some(vec![]) },
        Type { value: ValueType::Num, shape: Some(vec![1]) },
    ];
    assert_eq!(result, Some(expected));
}

#[test]
fn length_one_array_sits_on_the_seeded_input() {
    let f = Function {
        instrs: vec![
            Instr::BeginArray,
            Instr::Push(num_scalar()),
            Instr::EndArray { boxed: false },
        ],
    };
    let inputs = vec![num_scalar()];
    let result = check_type(&f, &inputs);
    let expected = vec![
        Type { value: ValueType::Num, shape: Some(vec![]) },
        Type { value: ValueType::Num, shape: Some(vec![1]) },
    ];
    assert_eq!(result, Some(expected));
}

#[test]
fn empty_boxed_array_is_box_of_unknown() {
    let f = Function {
        instrs: vec![Instr::BeginArray, Instr::EndArray { boxed: true }],
    };
    let result = check_type(&f, &[]);
    let expected = vec![Type {
        value: ValueType::Boxed(Box::new(Type { value: ValueType::Unknown, shape: None })),
        shape: Some(vec![0]),
    }];
    assert_eq!(result, Some(expected));
}

#[test]
fn empty_plain_array_is_numeric_with_dimension_zero() {
    let f = Function {
        instrs: vec![Instr::BeginArray, Instr::EndArray { boxed: false }],
    };
    let result = check_type(&f, &[]);
    let expected = vec![Type { value: ValueType::Num, shape: Some(vec![0]) }];
    assert_eq!(result, Some(expected));
}

#[test]
fn heterogeneous_items_with_matching_shapes_keep_the_count() {
    let f = Function {
        instrs: vec![
            Instr::BeginArray,
            Instr::Push(num_scalar()),
            Instr::Push(char_scalar()),
            Instr::EndArray { boxed: false },
        ],
    };
    let result = check_type(&f, &[]);
    let expected = vec![Type { value: ValueType::Unknown, shape: Some(vec![2]) }];
    assert_eq!(result, Some(expected));
}

#[test]
fn heterogeneous_shapes_lose_the_shape() {
    let f = Function {
        instrs: vec![
            Instr::BeginArray,
            Instr::Push(Value::Num(vec![])),
            Instr::Push(Value::Num(vec![2])),
            Instr::EndArray { boxed: false },
        ],
    };
    let result = check_type(&f, &[]);
    let expected = vec![Type { value: ValueType::Unknown, shape: None }];
    assert_eq!(result, Some(expected));
}

#[test]
fn boxed_array_collapses_item_shapes() {
    let f = Function {
        instrs: vec![
            Instr::BeginArray,
            Instr::Push(Value::Num(vec![3])),
            Instr::Push(Value::Char(vec![])),
            Instr::EndArray { boxed: true },
        ],
    };
    let result = check_type(&f, &[]);
    let expected = vec![Type {
        value: ValueType::Boxed(Box::new(Type { value: ValueType::Unknown, shape: None })),
        shape: Some(vec![2]),
    }];
    assert_eq!(result, Some(expected));
}

#[test]
fn homogeneous_boxed_array_boxes_the_common_type() {
    let f = Function {
        instrs: vec![
            Instr::BeginArray,
            Instr::Push(num_scalar()),
            Instr::Push(num_scalar()),
            Instr::EndArray { boxed: true },
        ],
    };
    let result = check_type(&f, &[]);
    let expected = vec![Type {
        value: ValueType::Boxed(Box::new(Type { value: ValueType::Num, shape: None })),
        shape: Some(vec![2]),
    }];
    assert_eq!(result, Some(expected));
}

#[test]
fn nested_arrays_stack_their_dimensions() {
    let f = Function {
        instrs: vec![
            Instr::BeginArray,
            Instr::BeginArray,
            Instr::Push(num_scalar()),
            Instr::EndArray { boxed: false },
            Instr::EndArray { boxed: false },
        ],
    };
    let result = check_type(&f, &[]);
    let expected = vec![Type { value: ValueType::Num, shape: Some(vec![1, 1]) }];
    assert_eq!(result, Some(expected));
}

#[test]
fn primitive_anywhere_bails_the_whole_run() {
    let f = Function {
        instrs: vec![
            Instr::Push(num_scalar()),
            Instr::Prim(Primitive::Add),
            Instr::Push(num_scalar()),
        ],
    };
    assert_eq!(check_type(&f, &[]), None);
}

#[test]
fn end_array_without_open_bails() {
    let f = Function { instrs: vec![Instr::EndArray { boxed: false }] };
    assert_eq!(check_type(&f, &[]), None);
}

#[test]
fn empty_function_returns_the_seeded_stack() {
    let f = Function { instrs: vec![] };
    let inputs = vec![char_scalar(), Value::Byte(vec![4])];
    let result = check_type(&f, &inputs);
    let expected = vec![
        Type { value: ValueType::Char, shape: Some(vec![]) },
        Type { value: ValueType::Num, shape: Some(vec![4]) },
    ];
    assert_eq!(result, Some(expected));
}

#[test]
fn from_value_describes_boxed_functions_recursively() {
    let v = Value::Func(vec![], Some(Box::new(Value::Num(vec![3]))));
    let t = Type::from_value(&v);
    let expected = Type {
        value: ValueType::Boxed(Box::new(Type { value: ValueType::Num, shape: Some(vec![3]) })),
        shape: Some(vec![]),
    };
    assert_eq!(t, expected);
}

#[test]
fn from_value_on_plain_function_is_opaque() {
    let v = Value::Func(vec![2], None);
    let t = Type::from_value(&v);
    assert_eq!(t, Type { value: ValueType::Function, shape: Some(vec![2]) });
    assert!(v.as_boxed().is_none());
    assert_eq!(v.shape(), &vec![2]);
}

#[test]
fn pops_past_the_bottom_return_the_default() {
    let mut env = TypeEnv::new();
    env.push(Type::new(ValueType::Num, vec![]));
    assert_eq!(env.pop(), Type { value: ValueType::Num, shape: Some(vec![]) });
    assert_eq!(env.pop(), Type { value: ValueType::Unknown, shape: None });
    assert_eq!(env.pop(), Type { value: ValueType::Unknown, shape: None });
    assert_eq!(env.into_stack(), vec![]);
}

#[test]
fn open_array_marker_is_clamped_by_pops() {
    let mut env = TypeEnv::new();
    env.push(Type::new(ValueType::Num, vec![]));
    assert_eq!(env.instr(&Instr::BeginArray), Some(()));
    env.pop();
    env.push(Type::new(ValueType::Num, vec![]));
    env.push(Type::new(ValueType::Num, vec![]));
    assert_eq!(env.instr(&Instr::EndArray { boxed: false }), Some(()));
    let expected = vec![Type { value: ValueType::Num, shape: Some(vec![2]) }];
    assert_eq!(env.into_stack(), expected);
}

#[test]
fn primitive_dispatch_is_inert() {
    let mut env = TypeEnv::new();
    assert_eq!(env.prim(Primitive::Mul), None);
    assert_eq!(env.into_stack(), vec![]);
}

#[test]
fn constructors_carry_their_fields() {
    let t = Type::new(ValueType::Char, vec![2, 3]);
    assert_eq!(t, Type { value: ValueType::Char, shape: Some(vec![2, 3]) });
    let u = Type::unknown_shape(ValueType::Function);
    assert_eq!(u, Type { value: ValueType::Function, shape: None });
    assert_eq!(Type::default(), Type { value: ValueType::Unknown, shape: None });
}
