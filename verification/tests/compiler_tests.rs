use weaver::compiler::Compiler;

#[test]
fn test_compile() {
    let mut compiler = Compiler::new("1 + 2", true);
    assert!(compiler.compile().is_ok(), "Failed to compile");
}

#[test]
fn test_compile_global_variables() {
    let mut compiler = Compiler::new("x = 1", true);
    let result = compiler.compile();
    assert!(result.is_ok(), "Failed to compile");
}

#[test]
fn test_compile_local_variables() {
    let mut compiler = Compiler::new("fn test() { x = 1; x + 3 } test()", true);
    let result = compiler.compile();
    assert!(result.is_ok(), "Failed to compile");
    let program = result.unwrap();
    let chunk = &program.functions[program.script].chunk;
    assert!(chunk.code.len() > 0, "Chunk should have bytecode");
}

#[test]
fn test_expression_statement() {
    let mut compiler = Compiler::new("x = 3; puts x;", true);
    let result = compiler.compile();
    assert!(result.is_ok(), "Failed to compile");
}

#[test]
fn test_sequential_function_compilation_debug() {
    let code = "
        fn func1(a) { a + 1 }
        fn func2(b) { b * 2 }
        fn func3(c) { c - 1 }

        func1(5) + func2(3) + func3(8)
    ";
    let mut compiler = Compiler::new(code, true);
    let result = compiler.compile();
    assert!(result.is_ok(), "Failed to compile sequential functions");
}

#[test]
fn test_sequential_lambda_compilation_debug() {
    let code = "
        lambda1 = ^(a) { a + 1 }
        lambda2 = ^(b) { b * 2 }
        lambda3 = ^(c) { c - 1 }

        lambda1(5) + lambda2(3) + lambda3(8)
    ";
    let mut compiler = Compiler::new(code, true);
    let result = compiler.compile();
    assert!(result.is_ok(), "Failed to compile sequential lambdas");
}

#[test]
fn test_mixed_function_lambda_compilation_debug() {
    let code = "
        fn func1(a) { a + 1 }
        lambda1 = ^(b) { b * 2 }
        fn func2(c) { c - 1 }
        lambda2 = ^(d) { d + 10 }

        func1(5) + lambda1(3) + func2(8) + lambda2(2)
    ";
    let mut compiler = Compiler::new(code, true);
    let result = compiler.compile();
    assert!(result.is_ok(), "Failed to compile mixed functions/lambdas");
}

#[test]
fn chunks_end_in_return() {
    // The structural guarantee of a successful compile, on a sample: the
    // last decoded instruction of every chunk is RETURN.
    let code = "fn add(a, b) { a + b } x = add(1, 2) if x > 1 { puts x }";
    let mut compiler = Compiler::new(code, true);
    let program = compiler.compile().unwrap();
    for f in &program.functions {
        assert!(f.chunk.code.len() > 0);
        assert_eq!(*f.chunk.code.last().unwrap(), 0u8);
    }
}

#[test]
fn closure_carries_its_upvalue_pairs() {
    // One captured variable: the CLOSURE instruction is followed by one
    // (is_local, index) pair and the function records one upvalue.
    let code = "fn outer() { v = 7 fn inner() { v } inner() } outer()";
    let mut compiler = Compiler::new(code, true);
    let program = compiler.compile().unwrap();
    let inner = program
        .functions
        .iter()
        .find(|f| f.name == b"inner".to_vec())
        .unwrap();
    assert_eq!(inner.upvalue_count, 1);
}
