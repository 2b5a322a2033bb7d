# wash_generate

Verified logic for project generation from templates and for the lattice bus
bindings of a component runtime, written in Verus.

- `src/project_variables.rs`: reading the placeholder tables of a template's
  configuration (type, prompt, expression, choices, default) into template
  variables, and determining the value of every variable.
- `src/toml_value.rs`, `src/params.rs`, `src/str_map.rs`: the configuration
  values, the variable values, and the string-keyed map that holds them.
- `src/pattern.rs`, `src/render.rs`: regular expressions (`regex`) and
  template expansion (`handlebars`), behind trusted wrappers.
- `src/bus.rs`: the bus handler of an instance, and call target interfaces
  held in a `wasmtime` resource table.
- `app/lib.rs`: conversions from and to TOML and JSON, error messages, and
  the asynchronous glue around the bus handler.
