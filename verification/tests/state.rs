use pywr_core::edge::{Edge, EdgeIndex};
use pywr_core::error::{EntityKind, PywrError};
use pywr_core::node::NodeIndex;
use pywr_core::parameters::{IndexParameterIndex, MultiValueParameterIndex, ParameterIndex};
use pywr_core::state::{NetworkState, State};
use pywr_core::virtual_storage::VirtualStorageIndex;

fn v(x: f64) -> i64 {
    (x * 1e9).round() as i64
}

#[test]
fn a_new_state_holds_zeros() {
    let state = State::new(3, 2, 1, 4, 5, 2);
    assert_eq!(state.network_state.node_in_flows, vec![0; 3]);
    assert_eq!(state.network_state.node_out_flows, vec![0; 3]);
    assert_eq!(state.network_state.node_volumes, vec![0; 3]);
    assert_eq!(state.network_state.edge_flows, vec![0; 2]);
    assert_eq!(state.network_state.virtual_storage_volumes, vec![0; 1]);
    assert_eq!(state.parameter_values, vec![0; 4]);
    assert_eq!(state.index_parameter_values, vec![0; 5]);
    assert_eq!(state.multi_parameter_values, vec![vec![], vec![]]);
    assert_eq!(state.index_parameter_internal, vec![None; 5]);
    assert_eq!(state.get_network_state(), &NetworkState::new(3, 2, 1));
}

#[test]
fn what_is_set_is_read_back() {
    let mut state = State::new(3, 2, 1, 4, 5, 2);
    assert_eq!(state.set_parameter_value(ParameterIndex(2), v(1.5)), Ok(()));
    assert_eq!(state.get_parameter_value(ParameterIndex(2)), Ok(v(1.5)));
    assert_eq!(state.get_parameter_value(ParameterIndex(1)), Ok(0));
    assert_eq!(state.set_index_parameter_value(IndexParameterIndex(4), 7), Ok(()));
    assert_eq!(state.get_index_parameter_value(IndexParameterIndex(4)), Ok(7));
    let keyed = vec![("a".to_string(), v(1.0)), ("a".to_string(), v(2.0))];
    assert_eq!(state.set_multi_parameter_value(MultiValueParameterIndex(1), keyed), Ok(()));
    // The first entry of a key is the one that is read.
    assert_eq!(state.get_multi_parameter_value(MultiValueParameterIndex(1), "a"), Ok(v(1.0)));
    let flows = &mut state.network_state;
    assert_eq!(flows.set_node_volume(&NodeIndex(0), v(10.0)), Ok(()));
    assert_eq!(flows.set_edge_flow(&EdgeIndex(1), v(3.0)), Ok(()));
    assert_eq!(flows.set_virtual_storage_volume(&VirtualStorageIndex(0), v(8.0)), Ok(()));
    assert_eq!(flows.get_node_volume(&NodeIndex(0)), Ok(v(10.0)));
    assert_eq!(flows.get_edge_flow(&EdgeIndex(1)), Ok(v(3.0)));
    assert_eq!(flows.get_virtual_storage_volume(&VirtualStorageIndex(0)), Ok(v(8.0)));
    assert_eq!(flows.get_node_proportional_volume(&NodeIndex(0), v(40.0)), Ok(v(0.25)));
    assert_eq!(flows.get_node_proportional_volume(&NodeIndex(0), 0), Ok(0));
    assert_eq!(
        flows.get_virtual_storage_proportional_volume(&VirtualStorageIndex(0), v(16.0)),
        Ok(v(0.5))
    );
}

#[test]
fn a_handle_beyond_the_state_is_not_found() {
    let mut state = State::new(3, 2, 1, 4, 5, 2);
    let before = state.clone();
    assert_eq!(
        state.set_parameter_value(ParameterIndex(4), 1),
        Err(PywrError::NotFoundAt(EntityKind::Parameter, 4))
    );
    assert_eq!(
        state.set_index_parameter_value(IndexParameterIndex(5), 1),
        Err(PywrError::NotFoundAt(EntityKind::IndexParameter, 5))
    );
    assert_eq!(
        state.get_index_parameter_value(IndexParameterIndex(5)),
        Err(PywrError::NotFoundAt(EntityKind::IndexParameter, 5))
    );
    assert_eq!(
        state.set_multi_parameter_value(MultiValueParameterIndex(2), vec![]),
        Err(PywrError::NotFoundAt(EntityKind::MultiValueParameter, 2))
    );
    assert_eq!(
        state.network_state.set_node_volume(&NodeIndex(3), 1),
        Err(PywrError::NotFoundAt(EntityKind::Node, 3))
    );
    assert_eq!(
        state.network_state.set_edge_flow(&EdgeIndex(2), 1),
        Err(PywrError::NotFoundAt(EntityKind::Edge, 2))
    );
    assert_eq!(
        state.network_state.set_virtual_storage_volume(&VirtualStorageIndex(1), 1),
        Err(PywrError::NotFoundAt(EntityKind::VirtualStorage, 1))
    );
    assert_eq!(
        state.network_state.get_node_proportional_volume(&NodeIndex(3), 1),
        Err(PywrError::NotFoundAt(EntityKind::Node, 3))
    );
    assert_eq!(state, before);
}

#[test]
fn committed_flows_are_summed_at_the_nodes() {
    let edge = |from: usize, to: usize| Edge { from_node: NodeIndex(from), to_node: NodeIndex(to) };
    // 0 → 1, 0 → 2, 1 → 2, and an edge to a node that is not there.
    let edges = vec![edge(0, 1), edge(0, 2), edge(1, 2), edge(2, 7)];
    let mut state = NetworkState::new(3, 4, 0);
    state.node_volumes = vec![v(1.0), v(2.0), v(3.0)];
    state.commit_lp_result(&edges, 3, &[v(1.0), v(2.0), v(4.0), v(8.0)]);
    assert_eq!(state.edge_flows, vec![v(1.0), v(2.0), v(4.0), v(8.0)]);
    assert_eq!(state.node_in_flows, vec![0, v(1.0), v(6.0)]);
    assert_eq!(state.node_out_flows, vec![v(3.0), v(4.0), v(8.0)]);
    assert_eq!(state.node_volumes, vec![v(1.0), v(2.0), v(3.0)]);
    // An edge without a flow adds nothing; sums stay at the ends of the range.
    state.commit_lp_result(&edges, 3, &[i64::MAX, i64::MAX]);
    assert_eq!(state.node_out_flows, vec![i64::MAX, 0, 0]);
    assert_eq!(state.node_in_flows, vec![0, i64::MAX, i64::MAX]);
}
