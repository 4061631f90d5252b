//! End-to-end tests: GLSL source text through `get_info`.

use glsl_shaderinfo::get_info;

fn ok(source: &str) -> glsl_shaderinfo::ShaderInfo {
    match get_info(&source.to_string()) {
        Ok(info) => info,
        Err(failure) => panic!("expected a parse, got failure: {}", failure.message),
    }
}

#[test]
fn version_with_profile() {
    let info = ok("#version 450 core\nvoid main() {}\n");
    assert_eq!(info.version, 450);
    assert_eq!(info.version_str, "450 core");
}

#[test]
fn version_without_profile() {
    let info = ok("#version 330\nvoid main() {}\n");
    assert_eq!(info.version, 330);
    assert_eq!(info.version_str, "330");
}

#[test]
fn version_absent_defaults_to_zero() {
    let info = ok("void main() {}\n");
    assert_eq!(info.version, 0);
    assert_eq!(info.version_str, "");
}

#[test]
fn classifies_in_out_uniform() {
    let source = "#version 450\n\
                  in vec3 position;\n\
                  out vec4 color;\n\
                  uniform mat4 mvp;\n\
                  const int k = 3;\n\
                  void main() {}\n";
    let info = ok(source);
    assert_eq!(info.vars.len(), 4);
    assert_eq!(info.inputs.len(), 1);
    assert_eq!(info.outputs.len(), 1);
    assert_eq!(info.uniforms.len(), 1);
    assert_eq!(info.inputs[0].name, "position");
    assert_eq!(info.inputs[0].ty_name, "Vec3");
    assert_eq!(info.inputs[0].storage, Some("In".to_string()));
    assert_eq!(info.outputs[0].name, "color");
    assert_eq!(info.outputs[0].ty_name, "Vec4");
    assert_eq!(info.uniforms[0].name, "mvp");
    assert_eq!(info.uniforms[0].ty_name, "Mat4");
    // the const declaration is reflected but classified nowhere
    assert_eq!(info.vars[3].name, "k");
    assert_eq!(info.vars[3].storage, Some("Const".to_string()));
}

#[test]
fn every_var_in_at_most_one_role_sequence() {
    let source = "in vec3 a;\nuniform float b;\nout vec2 c;\nvoid main() {}\n";
    let info = ok(source);
    for var in &info.vars {
        let occurrences = info.inputs.iter().filter(|v| v.name == var.name).count()
            + info.outputs.iter().filter(|v| v.name == var.name).count()
            + info.uniforms.iter().filter(|v| v.name == var.name).count();
        assert!(occurrences <= 1, "{} classified more than once", var.name);
    }
    assert_eq!(info.inputs.len() + info.outputs.len() + info.uniforms.len(), 3);
}

#[test]
fn vars_keep_declaration_order() {
    let source = "uniform float a;\nin vec3 b;\nfloat c;\nvoid main() {}\n";
    let info = ok(source);
    let names: Vec<&str> = info.vars.iter().map(|v| v.name.as_str()).collect();
    assert_eq!(names, vec!["a", "b", "c"]);
}

#[test]
fn array_fixed_size() {
    let info = ok("uniform float x[4];\nvoid main() {}\n");
    assert_eq!(info.vars.len(), 1);
    assert_eq!(info.vars[0].array, Some(vec![4]));
    assert_eq!(info.vars[0].array_str(), "[4]");
}

#[test]
fn array_unsized() {
    let info = ok("uniform float x[];\nvoid main() {}\n");
    assert_eq!(info.vars[0].array, Some(vec![]));
    assert_eq!(info.vars[0].array_str(), "[]");
}

#[test]
fn array_absent() {
    let info = ok("uniform float x;\nvoid main() {}\n");
    assert_eq!(info.vars[0].array, None);
    assert_eq!(info.vars[0].array_str(), "");
}

#[test]
fn array_named_constant_stays_unresolved() {
    let info = ok("const int n = 3;\nuniform float x[n];\nvoid main() {}\n");
    assert_eq!(info.vars.len(), 2);
    assert_eq!(info.vars[1].name, "x");
    assert_eq!(info.vars[1].array, None);
}

#[test]
fn named_block_instance_round_trip() {
    let info = ok("uniform Name { float f; } inst;\nvoid main() {}\n");
    assert_eq!(info.blocks.len(), 1);
    assert_eq!(info.blocks[0].name, "Name");
    assert_eq!(info.blocks[0].fields.len(), 1);
    assert_eq!(info.blocks[0].fields[0].name, "f");
    assert_eq!(info.blocks[0].fields[0].ty_name, "Float");
    assert_eq!(info.vars.len(), 1);
    assert_eq!(info.vars[0].name, "inst");
    assert_eq!(info.vars[0].ty_name, "Name");
    assert_eq!(info.vars[0].storage, Some("Uniform".to_string()));
    assert_eq!(info.uniforms.len(), 1);
    assert_eq!(info.uniforms[0].name, "inst");
    assert_eq!(info.uniforms[0].ty_name, "Name");
}

#[test]
fn block_without_instance_yields_no_variable() {
    let info = ok("uniform Data { float a; vec3 b; };\nvoid main() {}\n");
    assert_eq!(info.blocks.len(), 1);
    assert_eq!(info.blocks[0].name, "Data");
    assert_eq!(info.blocks[0].fields.len(), 2);
    assert_eq!(info.blocks[0].fields[0].name, "a");
    assert_eq!(info.blocks[0].fields[1].name, "b");
    assert_eq!(info.vars.len(), 0);
    assert_eq!(info.uniforms.len(), 0);
}

#[test]
fn block_instance_array_dimension() {
    let info = ok("uniform Data { float a; } inst[2];\nvoid main() {}\n");
    assert_eq!(info.vars.len(), 1);
    assert_eq!(info.vars[0].name, "inst");
    assert_eq!(info.vars[0].array, Some(vec![2]));
    assert_eq!(info.uniforms.len(), 1);
    assert_eq!(info.uniforms[0].array, Some(vec![2]));
}

#[test]
fn block_field_array_dimension() {
    let info = ok("uniform Data { float a[8]; } inst;\nvoid main() {}\n");
    assert_eq!(info.blocks[0].fields[0].array, Some(vec![8]));
    assert_eq!(info.blocks[0].fields[0].array_str(), "[8]");
    // the instance itself is not an array
    assert_eq!(info.vars[0].array, None);
}

#[test]
fn multi_identifier_field_reads_first_name() {
    let info = ok("uniform Data { float a, b; } inst;\nvoid main() {}\n");
    assert_eq!(info.blocks[0].fields.len(), 1);
    assert_eq!(info.blocks[0].fields[0].name, "a");
}

#[test]
fn local_declarations_are_not_reflected() {
    let info = ok("in vec3 a;\nvoid main() { float local_var; }\n");
    assert_eq!(info.vars.len(), 1);
    assert_eq!(info.vars[0].name, "a");
}

#[test]
fn name_lists_follow_roles() {
    let source = "in vec3 a;\nuniform float b;\nout vec2 c;\nuniform Data { float f; } d;\nvoid main() {}\n";
    let info = ok(source);
    assert_eq!(info.input_names(), vec!["a".to_string()]);
    assert_eq!(info.output_names(), vec!["c".to_string()]);
    assert_eq!(info.uniform_names(), vec!["b".to_string(), "d".to_string()]);
    assert_eq!(info.block_names(), vec!["Data".to_string()]);
}

#[test]
fn reflection_is_idempotent() {
    let source = "#version 450 core\n\
                  in vec3 position;\n\
                  uniform Data { float a[2]; } inst;\n\
                  out vec4 color;\n\
                  void main() {}\n";
    let first = ok(source);
    let second = ok(source);
    assert_eq!(first, second);
}

#[test]
fn parse_failure_is_reported() {
    let result = get_info(&"this is not a shader ((".to_string());
    match result {
        Ok(_) => panic!("expected a parse failure"),
        Err(failure) => assert!(!failure.message.is_empty()),
    }
}

#[test]
fn shader_repr_summarises_counts() {
    let source = "#version 450 core\nin vec3 a;\nout vec4 b;\nout vec4 c;\nvoid main() {}\n";
    let info = ok(source);
    assert_eq!(info.repr(), "<ShaderInfo for GLSL: 450 core (1 in, 2 outs)>");
}

#[test]
fn version_number_too_wide_is_refused() {
    let result = get_info(&"#version 99999\nvoid main() {}\n".to_string());
    match result {
        Ok(_) => panic!("expected a failure for an out-of-range version number"),
        Err(failure) => assert!(!failure.message.is_empty()),
    }
}

#[test]
fn version_number_too_wide_with_extra_spacing_is_refused() {
    let result = get_info(&"#  version\t70000\nvoid main() {}\n".to_string());
    assert!(result.is_err());
}

#[test]
fn version_number_at_the_limit_is_accepted() {
    let info = ok("#version 65535\nvoid main() {}\n");
    assert_eq!(info.version, 65535);
    assert_eq!(info.version_str, "65535");
}

#[test]
fn version_number_with_leading_zeros_is_accepted() {
    let info = ok("#version 00450 core\nvoid main() {}\n");
    assert_eq!(info.version, 450);
    assert_eq!(info.version_str, "450 core");
}

#[test]
fn wide_digit_runs_outside_a_version_directive_still_parse() {
    let info = ok("const int big = 99999;\nvoid main() {}\n");
    assert_eq!(info.vars.len(), 1);
    assert_eq!(info.vars[0].name, "big");
}
