use shard_control::descriptor_set_layout::{
    DescriptorBinding, DescriptorBufferKind, DescriptorSetLayoutBuilder,
};

#[test]
fn builder_records_bindings_in_order() {
    let builder = DescriptorSetLayoutBuilder::new()
        .add_uniform_buffer(0)
        .add_storage_buffer(1)
        .add_uniform_buffer(2);
    assert_eq!(builder.uniform_buffer_bindings, vec![0, 2]);
    assert_eq!(builder.storage_buffer_bindings, vec![1]);
}

#[test]
fn binding_layout_lists_uniform_slots_then_storage_slots() {
    let builder = DescriptorSetLayoutBuilder::new()
        .add_uniform_buffer(0)
        .add_uniform_buffer(1)
        .add_storage_buffer(2)
        .add_storage_buffer(3);
    let layout = builder.binding_layout();
    assert_eq!(
        layout,
        vec![
            DescriptorBinding { binding: 0, kind: DescriptorBufferKind::Uniform },
            DescriptorBinding { binding: 1, kind: DescriptorBufferKind::Uniform },
            DescriptorBinding { binding: 2, kind: DescriptorBufferKind::Storage },
            DescriptorBinding { binding: 3, kind: DescriptorBufferKind::Storage },
        ]
    );
}

#[test]
fn empty_builder_yields_an_empty_layout() {
    let builder = DescriptorSetLayoutBuilder::new();
    assert!(builder.binding_layout().is_empty());
}
