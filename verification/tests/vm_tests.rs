use weaver::value::NanBoxedValue;
use weaver::vm::VM;

fn number(x: f64) -> NanBoxedValue {
    NanBoxedValue::number(x.to_bits())
}

fn global_of(vm: &VM, name: &[u8]) -> Option<NanBoxedValue> {
    for (i, s) in vm.strings.iter().enumerate() {
        if s.value.as_slice() == name {
            return vm.globals[i];
        }
    }
    None
}

#[test]
fn test_basic_math() {
    let mut vm = VM::new();
    let res = vm.interpret("5 + 2 * 3");
    assert!(res.is_ok(), "Failed to interpret: {:?}", res.unwrap_err());
    let result = res.unwrap();
    assert!(result.is_number());
    assert_eq!(result.as_number_bits(), 11.0f64.to_bits());
}

#[test]
fn test_parenthesis() {
    let mut vm = VM::new();
    let res = vm.interpret("(5 + 2) * 3");
    assert!(res.is_ok(), "Failed to interpret: {:?}", res.unwrap_err());
    assert_eq!(res.unwrap(), number(21.0));
}

#[test]
fn test_negate() {
    let mut vm = VM::new();
    let res = vm.interpret("-5");
    assert!(res.is_ok(), "Failed to interpret: {:?}", res.unwrap_err());
    assert_eq!(res.unwrap(), number(-5.0));
}

#[test]
fn test_string_literal() {
    let mut vm = VM::new();
    let res = vm.interpret("\"hello\"");
    assert!(res.is_ok(), "Failed to interpret: {:?}", res.unwrap_err());
    let result = res.unwrap();
    assert!(result.is_string());
    let idx = (result.bits() & 0x0000FFFFFFFFFFFF) as usize;
    assert_eq!(vm.strings[idx].value, b"hello".to_vec());
}

#[test]
fn test_var_addition() {
    let mut vm = VM::new();
    let res = vm.interpret("x = 5\nx + 2");
    assert!(res.is_ok(), "Failed to interpret: {:?}", res.unwrap_err());
    assert_eq!(res.unwrap(), number(7.0));
    assert_eq!(global_of(&vm, b"x"), Some(number(5.0)));
}

#[test]
fn test_puts_statement() {
    let mut vm = VM::new();
    let res = vm.interpret("puts \"hello\";");
    assert_eq!(vm.stack.len(), 0);
    assert!(res.is_ok(), "Failed to interpret: {:?}", res.unwrap_err());
    assert_eq!(vm.output.len(), 1);
    assert_eq!(vm.output[0], b"hello".to_vec());
}

#[test]
fn test_using_var() {
    let mut vm = VM::new();
    let res = vm.interpret("x = 5; puts x;");
    assert_eq!(vm.stack.len(), 0);
    assert!(res.is_ok(), "Failed to interpret: {:?}", res.unwrap_err());
    assert_eq!(vm.output[0], b"5".to_vec());
}

#[test]
fn test_declaring_var() {
    let mut vm = VM::new();
    let res = vm.interpret("x = 5");
    assert_eq!(vm.stack.len(), 0);
    assert!(res.is_ok(), "Failed to interpret: {:?}", res.unwrap_err());
    assert_eq!(global_of(&vm, b"x"), Some(number(5.0)));
}

#[test]
fn test_invalid_assignment_doesnt_parse() {
    let mut vm = VM::new();
    let res = vm.interpret("a= 1; a + b = 5");
    assert!(res.is_err());
}

#[test]
fn test_shadowing_self() {
    let mut vm = VM::new();
    let res = vm.interpret(
        "
        a = 1;  # Global var
        fn foo() {
            a = a   # Shadows global with a local
            a = a + 2  # Increments local
        }
        foo()

        a ",
    );
    assert!(res.is_ok(), "Failed to interpret: {:?}", res.unwrap_err());
    assert_eq!(res.unwrap(), number(1.0));
}

#[test]
fn test_bad_initializer() {
    let mut vm = VM::new();
    let res = vm.interpret("a = a");
    assert!(res.is_err());
}

#[test]
fn test_local_variables() {
    let mut vm = VM::new();
    let res = vm.interpret("fn test() { x = 1; x + 3 } test()");
    assert!(res.is_ok(), "Failed to interpret: {:?}", res.unwrap_err());
    assert_eq!(res.unwrap(), number(4.0));
}

#[test]
fn test_nested_scopes() {
    let mut vm = VM::new();
    let res = vm.interpret("fn outer() { x = 2; fn inner() { x = x + 3; x } inner() } outer()");
    assert!(res.is_ok(), "Failed to interpret: {:?}", res.unwrap_err());
    assert_eq!(res.unwrap(), number(5.0));
}

#[test]
fn test_if_true_condition() {
    let mut vm = VM::new();
    let res = vm.interpret(
        "fn test() {
        a = 1;
        if (true) { a = a + 1 }
        a} test()",
    );
    assert!(res.is_ok(), "Failed to interpret: {:?}", res.unwrap_err());
    assert_eq!(res.unwrap(), number(2.0));
}

#[test]
fn test_if_false_condition() {
    let code = "fn test() {
        a = 1;
        if false { a = a + 1 }
        a
        } test()";
    let mut vm = VM::new();
    let res = vm.interpret(code);
    assert!(res.is_ok(), "Failed to interpret: {:?}", res.unwrap_err());
    assert_eq!(res.unwrap(), number(1.0));
}

#[test]
fn test_if_else_condition() {
    let code = "fn test() {
        a = 1;
        if false {
            a = a + 1
        } else {
            a = a + 2
        }
        a
        } test()";
    let mut vm = VM::new();
    let res = vm.interpret(code);
    assert!(res.is_ok(), "Failed to interpret: {:?}", res.unwrap_err());
    assert_eq!(res.unwrap(), number(3.0));
}

#[test]
fn test_if_syntax() {
    let code = "
            if false {
                puts 1
            } else {
                puts 2
            }
        ";
    let mut vm = VM::new();
    let res = vm.interpret(code);
    assert!(res.is_ok(), "Failed to interpret: {:?}", res.unwrap_err());
}

#[test]
fn test_while_syntax() {
    let code = "fn test() {
            a = 1
            while a < 3 {
                a = a + 1
            }
            a
        } test()";
    let mut vm = VM::new();
    let res = vm.interpret(code);
    assert!(res.is_ok(), "Failed to interpret: {:?}", res.unwrap_err());
    assert_eq!(res.unwrap(), number(3.0));
}

#[test]
fn test_fn_definition() {
    let code = "
            fn add(a, b) {
                a + b
            }
            add(-1, 4)
        ";
    let mut vm = VM::new();
    let res = vm.interpret(code);
    assert!(res.is_ok(), "Failed to interpret: {:?}", res.unwrap_err());
    assert_eq!(res.unwrap(), number(3.0));
}

#[test]
fn test_simple_closure() {
    let code = "
            fn make_counter() {
              count = 0
              fn counter() {
                count = count + 1
                count
              }
              counter
            }
            c = make_counter()
            c()
        ";
    let mut vm = VM::new();
    let res = vm.interpret(code);
    assert!(res.is_ok(), "Failed to interpret: {:?}", res.unwrap_err());
    assert_eq!(res.unwrap(), number(1.0));
}

#[test]
fn test_closures() {
    let code = "
            fn outer() {
              a = 1;
              b = 2;
              fn middle() {
                c = 3;
                d = 4;
                fn inner() {
                  a + c + b + d
                }
                inner()
              }
              middle()
            }
            outer()
        ";
    let mut vm = VM::new();
    let res = vm.interpret(code);
    assert!(res.is_ok(), "Failed to interpret: {:?}", res.unwrap_err());
    assert_eq!(res.unwrap(), number(10.0));
}

#[test]
fn test_basic_lambda() {
    let code = "
            add = ^(a, b) { a + b }
            add(3, 4)
        ";
    let mut vm = VM::new();
    let res = vm.interpret(code);
    assert!(res.is_ok(), "Failed to interpret: {:?}", res.unwrap_err());
    assert_eq!(res.unwrap(), number(7.0));
}

#[test]
fn test_lambda_with_closure() {
    let code = "
            fn make_adder(x) {
                ^(y) { x + y }
            }
            add5 = make_adder(5)
            add5(10)
        ";
    let mut vm = VM::new();
    let res = vm.interpret(code);
    assert!(res.is_ok(), "Failed to interpret: {:?}", res.unwrap_err());
    assert_eq!(res.unwrap(), number(15.0));
}

#[test]
fn test_lambda_no_params() {
    let code = "
            getValue = ^() { 42 }
            getValue()
        ";
    let mut vm = VM::new();
    let res = vm.interpret(code);
    assert!(res.is_ok(), "Failed to interpret: {:?}", res.unwrap_err());
    assert_eq!(res.unwrap(), number(42.0));
}

#[test]
fn test_lambda_single_param() {
    let code = "
            square = ^(x) { x * x }
            square(6)
        ";
    let mut vm = VM::new();
    let res = vm.interpret(code);
    assert!(res.is_ok(), "Failed to interpret: {:?}", res.unwrap_err());
    assert_eq!(res.unwrap(), number(36.0));
}

#[test]
fn test_multiple_lambdas_sequential() {
    let code = "
            add = ^(a, b) { a + b }
            result1 = add(3, 4)

            square = ^(x) { x * x }
            result2 = square(5)

            result1 + result2
        ";
    let mut vm = VM::new();
    let res = vm.interpret(code);
    assert!(res.is_ok(), "Failed to interpret: {:?}", res.unwrap_err());
    assert_eq!(res.unwrap(), number(32.0));
}

#[test]
fn test_multiple_lambdas_same_line() {
    let code = "
            add = ^(a, b) { a + b }
            mul = ^(x, y) { x * y }
            add(3, 4) + mul(5, 6)
        ";
    let mut vm = VM::new();
    let res = vm.interpret(code);
    assert!(res.is_ok(), "Failed to interpret: {:?}", res.unwrap_err());
    assert_eq!(res.unwrap(), number(37.0));
}

#[test]
fn test_lambda_sequence_with_strings() {
    let code = "
            add = ^(a, b) { a + b }
            getMessage = ^() { \"Hello\" }

            result = add(3, 4)
            msg = getMessage()
            result
        ";
    let mut vm = VM::new();
    let res = vm.interpret(code);
    assert!(res.is_ok(), "Failed to interpret: {:?}", res.unwrap_err());
    assert_eq!(res.unwrap(), number(7.0));
}

#[test]
fn test_lambda_with_intermediate_variables() {
    let code = "
            lambda1 = ^(x) { x + 1 }
            temp = 5
            lambda2 = ^(y) { y * 2 }

            result1 = lambda1(temp)
            result2 = lambda2(temp)
            result1 + result2
        ";
    let mut vm = VM::new();
    let res = vm.interpret(code);
    assert!(res.is_ok(), "Failed to interpret: {:?}", res.unwrap_err());
    assert_eq!(res.unwrap(), number(16.0));
}

#[test]
fn test_sequential_named_functions() {
    let code = "
            fn func1(x) { x + 1 }
            temp = 5
            fn func2(y) { y * 2 }

            result1 = func1(temp)
            result2 = func2(temp)
            result1 + result2
        ";
    let mut vm = VM::new();
    let res = vm.interpret(code);
    assert!(res.is_ok(), "Failed to interpret: {:?}", res.unwrap_err());
    assert_eq!(res.unwrap(), number(16.0));
}

#[test]
fn test_nested_lambda_calls() {
    let code = "
            add = ^(a, b) { a + b }
            mul = ^(x, y) { x * y }

            add(mul(2, 3), mul(4, 5))
        ";
    let mut vm = VM::new();
    let res = vm.interpret(code);
    assert!(res.is_ok(), "Failed to interpret: {:?}", res.unwrap_err());
    assert_eq!(res.unwrap(), number(26.0));
}

#[test]
fn counter_state_persists_across_calls() {
    let code = "
            fn make_counter() {
              count = 0
              fn inc() {
                count = count + 1
                count
              }
              inc
            }
            c = make_counter()
            c(); c(); c()
        ";
    let mut vm = VM::new();
    let res = vm.interpret(code);
    assert!(res.is_ok(), "Failed to interpret: {:?}", res.unwrap_err());
    assert_eq!(res.unwrap(), number(3.0));
}

#[test]
fn string_concatenation() {
    let mut vm = VM::new();
    let res = vm.interpret("\"ab\" + \"cd\"");
    let result = res.unwrap();
    assert!(result.is_string());
    let idx = (result.bits() & 0x0000FFFFFFFFFFFF) as usize;
    assert_eq!(vm.strings[idx].value, b"abcd".to_vec());
}

#[test]
fn string_number_concatenation() {
    let mut vm = VM::new();
    let res = vm.interpret("\"a\" + 1");
    let result = res.unwrap();
    assert!(result.is_string());
    let idx = (result.bits() & 0x0000FFFFFFFFFFFF) as usize;
    assert_eq!(vm.strings[idx].value, b"a1".to_vec());
}

#[test]
fn undefined_global_is_a_runtime_error() {
    let mut vm = VM::new();
    let res = vm.interpret("nope + 1");
    match res {
        Err(e) => assert_eq!(e.exit_code(), 80),
        Ok(_) => panic!("expected a runtime error"),
    }
}

#[test]
fn wrong_arity_is_a_runtime_error() {
    let mut vm = VM::new();
    let res = vm.interpret("fn one(a) { a } one(1, 2)");
    match res {
        Err(e) => assert_eq!(e.exit_code(), 80),
        Ok(_) => panic!("expected a runtime error"),
    }
}

#[test]
fn calling_a_number_is_a_runtime_error() {
    let mut vm = VM::new();
    let res = vm.interpret("x = 3 x()");
    match res {
        Err(e) => assert_eq!(e.exit_code(), 80),
        Ok(_) => panic!("expected a runtime error"),
    }
}

#[test]
fn stack_overflow_at_one_hundred_frames() {
    let mut vm = VM::new();
    let res = vm.interpret("fn f(n) { f(n + 1) } f(0)");
    match res {
        Err(weaver::vm::VMError::RuntimeError { msg, .. }) => {
            assert_eq!(msg, "Stack overflow");
        }
        other => panic!("expected a stack overflow, got {:?}", other),
    }
}

#[test]
fn division_by_zero_yields_infinity() {
    let mut vm = VM::new();
    let res = vm.interpret("1 / 0");
    assert_eq!(res.unwrap(), number(f64::INFINITY));
}

#[test]
fn return_at_script_level_is_rejected() {
    let mut vm = VM::new();
    let res = vm.interpret("return 3");
    match res {
        Err(e) => assert_eq!(e.exit_code(), 70),
        Ok(_) => panic!("expected a compile error"),
    }
}

#[test]
fn comparison_operators() {
    let mut vm = VM::new();
    assert_eq!(vm.interpret("1 < 2").unwrap(), NanBoxedValue::boolean(true));
    assert_eq!(vm.interpret("2 <= 2").unwrap(), NanBoxedValue::boolean(true));
    assert_eq!(vm.interpret("3 > 4").unwrap(), NanBoxedValue::boolean(false));
    assert_eq!(vm.interpret("4 >= 5").unwrap(), NanBoxedValue::boolean(false));
    assert_eq!(vm.interpret("1 == 1").unwrap(), NanBoxedValue::boolean(true));
    assert_eq!(vm.interpret("1 != 1").unwrap(), NanBoxedValue::boolean(false));
}

#[test]
fn logical_operators_short_circuit() {
    let mut vm = VM::new();
    assert_eq!(vm.interpret("true && false").unwrap(), NanBoxedValue::boolean(false));
    assert_eq!(vm.interpret("false || true").unwrap(), NanBoxedValue::boolean(true));
    assert_eq!(vm.interpret("1 && 2").unwrap(), number(2.0));
    // The right side of a false && must not run.
    let res = vm.interpret("false && nosuchname");
    assert!(res.is_ok());
}

#[test]
fn globals_survive_a_runtime_error() {
    let mut vm = VM::new();
    let _ = vm.interpret("x = 9");
    let res = vm.interpret("nothere");
    assert!(res.is_err());
    assert_eq!(global_of(&vm, b"x"), Some(number(9.0)));
}
