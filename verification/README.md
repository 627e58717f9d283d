# quickjs_bytecode

Verified checking of QuickJS-style final bytecode, written in Verus. Every
function is proved against its contract; what std does when it reserves memory or
compares handles, and the empty shared slice, is stated in small wrappers
(`reserve`, `bytecode::preflight`, `control_flow::model`).

- `opcode`, `instruction`, `function`: the opcode table, instruction decoding
  and function headers.
- `control_flow`: control-flow certificates of one body. A body is decoded as a
  whole, its operands, targets and header are checked, and the depth of the
  ordinary operand stack is proved on every path.
- `function_graph`: the functions of one compilation with their pools.
- `bytecode`: whole-graph verification. Metadata, closures, sources, scopes and
  initializers are checked against the bodies; a typed analysis follows iterator,
  catch and finally markers over the stack, and a second one the origins of
  objects under construction. `bytecode::graph` freezes the result.
- `checks`, `copies`, `reserve`, `text`: ordered checks, copies of vectors,
  fallible reservation of memory, and numbers as text.

The modules whose names end in `laws` state what holds of every accepted input:
instructions cover their body and control stays inside it, stack depths agree
along all paths, typed stacks and object origins agree along all edges, every
function template has one owner, and usage counts the records, each retained
text once, and stays within its limits. They also state where the errors about a body point.

Whole-graph verification takes the findings of the analyses that follow bindings
through a body as values (`bytecode::function_metadata::FunctionFindings` and
`bytecode::graph::GraphFindings`).
