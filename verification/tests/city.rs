use mypthreads::block::{Block, CityBlock};
use mypthreads::block_grid::BlockGrid;
use mypthreads::block_type::BlockType::{Bridge, Dock, NuclearPlant, Road, Shops, Water};
use mypthreads::city_map::CityMap;
use mypthreads::control::Control;
use mypthreads::coord::Coord;
use mypthreads::dock::DockBlock;
use mypthreads::exits::Exits;
use mypthreads::mymutex::MyMutex;
use mypthreads::mypthread::MyPThread;
use mypthreads::nuclearplant::NuclearPlantBlock;
use mypthreads::plant_status::PlantStatus;
use mypthreads::road::RoadBlock;
use mypthreads::shop::Shop;
use mypthreads::shopblock::ShopBlock;
use mypthreads::supply::SupplyKind;
use mypthreads::transport_policy::TransportPolicy;
use mypthreads::transport_policy::TransportPolicy::{AnyVehicle, Car, NoVehicles, Ship};
use mypthreads::vehicle_type::VehicleType;
use mypthreads::water::WaterBlock;

#[test]
fn test_create_road_block() {
    let id: usize = 1;
    let road = RoadBlock::new(id);

    assert_eq!(id, road.get_id());
    assert_eq!(Road, road.get_type());
    assert_eq!(Car, road.get_policy())
}

#[test]
fn test_create_shop_block() {
    let id: usize = 3;
    let mut shops: Vec<Shop> = Vec::new();
    shops.insert(0, Shop::new("Lolitas".to_string()));
    shops.insert(1, Shop::new("Super Gloria".to_string()));
    shops.insert(2, Shop::new("Ferreteria Ocre".to_string()));
    let shops_copy = shops.clone();
    let shop_block = ShopBlock::new(id, shops);

    assert_eq!(id, shop_block.get_id());
    assert_eq!(Shops, shop_block.get_type());
    assert_eq!(NoVehicles, shop_block.get_policy());
    assert_eq!(shops_copy.get(2), shop_block.get_shops().get(2));
}

#[test]
fn test_create_water_block() {
    let id: usize = 1;
    let water = WaterBlock::new(id);

    assert_eq!(id, water.get_id());
    assert_eq!(Ship, water.get_policy());
    assert_eq!(Water, water.get_type());
}

#[test]
fn test_create_dock_block() {
    let id: usize = 1;
    let dock = DockBlock::new(id);

    assert_eq!(id, dock.get_id());
    assert_eq!(Dock, dock.get_type());
    assert_eq!(Ship, dock.get_policy());
}

#[test]
fn test_create_nuclear_block() {
    let id: usize = 1;
    let dl_policy: usize = 35;
    let update_interval: usize = 33;
    let plant = NuclearPlantBlock::new(id, dl_policy, update_interval);
    assert_eq!(plant.get_type(), NuclearPlant);
    assert_eq!(plant.get_id(), id);
    assert_eq!(plant.get_policy(), NoVehicles);
}

#[test]
fn test_create_control_with_traffic() {
    let in_int: usize = 10;
    let out_int: usize = 12;
    let control = Control::with_traffic(in_int, out_int);

    assert_eq!(false, control.has_yield);
    assert_eq!(in_int, control.in_traffic_light.unwrap().update_interval_ms);
    assert_eq!(out_int, control.out_traffic_light.unwrap().update_interval_ms);
}

#[test]
fn test_create_control_without_traffic_nor_yield() {
    let control = Control::without_traffic(false);

    assert_eq!(false, control.has_yield);
    assert_eq!(None, control.in_traffic_light);
    assert_eq!(None, control.out_traffic_light);
}

#[test]
fn test_create_control_with_yield() {
    let control = Control::without_traffic(true);
    assert_eq!(true, control.has_yield);
    assert_eq!(None, control.in_traffic_light);
    assert_eq!(None, control.out_traffic_light);
}

#[test]
fn test_create_bridge() {
    let id = 1;
    let ctrl = Control::without_traffic(false);
    let mut mutex = MyMutex::new();
    MyPThread::new().my_mutex_init(&mut mutex);

    let mut bridge = mypthreads::bridge::BridgeBlock::new(id, ctrl, mutex);

    assert_eq!(id, bridge.get_id());
    assert_eq!(Bridge, bridge.get_type());
    assert_eq!(AnyVehicle, bridge.get_policy());
    assert!(bridge.mutex.is_some());

    if let Some(mut mute) = bridge.return_mutex() {
        assert_eq!(MyPThread::new().my_mutex_destroy(&mut mute), Exits::Success);
    } else {
        panic!("Bridge isn't returning the mutex")
    };

    assert!(bridge.mutex.is_none());
}

#[test]
fn test_map_custom_creation_with_all_blocks() {
    let mut custom = Vec::new();
    let arr1: Vec<CityBlock> = vec![
        CityBlock::Water(WaterBlock::new(0)),
        CityBlock::Road(RoadBlock::new(1)),
        CityBlock::Dock(DockBlock::new(2)),
    ];
    custom.push(arr1);
    let shops = Vec::new();
    let control = Control::without_traffic(false);
    let arr2: Vec<CityBlock> = vec![
        CityBlock::Bridge(mypthreads::bridge::BridgeBlock::new(3, control, MyMutex::new())),
        CityBlock::Shops(ShopBlock::new(4, shops)),
        CityBlock::NuclearPlant(NuclearPlantBlock::new(5, 12, 15)),
    ];
    custom.push(arr2);
    let map = BlockGrid::build_custom(custom);

    assert_eq!(3, map.width);
    assert_eq!(2, map.height);
    assert!(matches!(map.grid[0][0], CityBlock::Water(_)));
    assert!(matches!(map.grid[0][1], CityBlock::Road(_)));
    assert!(matches!(map.grid[0][2], CityBlock::Dock(_)));
    assert!(matches!(map.grid[1][0], CityBlock::Bridge(_)));
    assert!(matches!(map.grid[1][1], CityBlock::Shops(_)));
    assert!(matches!(map.grid[1][2], CityBlock::NuclearPlant(_)));
    assert!(!matches!(map.grid[1][2], CityBlock::Water(_)));
}

fn advance_frames(plant: &mut NuclearPlantBlock, frames: usize) {
    for _ in 0..frames {
        let _ = plant.advance_time(1);
    }
}

#[test]
fn plant_advances_state_every_interval() {
    let mut plant = NuclearPlantBlock::new(1, 100, 30);

    assert_eq!(plant.plant_status, PlantStatus::Stable);

    advance_frames(&mut plant, 30);
    assert_eq!(plant.plant_status, PlantStatus::AtRisk);

    advance_frames(&mut plant, 30);
    assert_eq!(plant.plant_status, PlantStatus::Critical);

    advance_frames(&mut plant, 30);
    assert_eq!(plant.plant_status, PlantStatus::Boom);

    advance_frames(&mut plant, 300);
    assert_eq!(plant.plant_status, PlantStatus::Boom);
}

#[test]
fn plant_enqueues_requirements_when_entering_at_risk_once() {
    let mut plant = NuclearPlantBlock::new(1, 100, 30);

    advance_frames(&mut plant, 30);
    assert_eq!(plant.plant_status, PlantStatus::AtRisk);

    assert_eq!(plant.required_supplies.len(), 2);
    assert!(plant.required_supplies.iter().any(|r| r.kind == SupplyKind::NuclearMaterial));
    assert!(plant.required_supplies.iter().any(|r| r.kind == SupplyKind::Water));

    advance_frames(&mut plant, 10);
    assert_eq!(plant.required_supplies.len(), 2);
}

#[test]
fn reaching_boom_clears_requirements_and_scheduled() {
    let mut plant = NuclearPlantBlock::new(1, 100, 30);

    advance_frames(&mut plant, 30);
    assert_eq!(plant.required_supplies.len(), 2);

    advance_frames(&mut plant, 30);
    assert_eq!(plant.plant_status, PlantStatus::Critical);

    advance_frames(&mut plant, 30);
    assert_eq!(plant.plant_status, PlantStatus::Boom);
    assert!(plant.required_supplies.is_empty(), "reaching Boom clears the demands");
    assert!(plant.scheduled_kinds.is_empty(), "reaching Boom clears the scheduled kinds");
}

#[test]
fn plant_delivery_clears_demands_and_recovers() {
    let mut plant = NuclearPlantBlock::new(1, 100, 30);
    advance_frames(&mut plant, 30);
    assert_eq!(plant.plant_status, PlantStatus::AtRisk);
    assert_eq!(plant.required_supplies.len(), 2);

    plant.commit_delivery(SupplyKind::NuclearMaterial);
    assert_eq!(plant.required_supplies.len(), 1);
    assert_eq!(plant.plant_status, PlantStatus::AtRisk);

    plant.commit_delivery(SupplyKind::Water);
    assert_eq!(plant.required_supplies.len(), 0);
    assert_eq!(plant.plant_status, PlantStatus::Stable);
}

#[test]
fn traffic_light_toggles_on_interval() {
    let mut light = mypthreads::traffic_light::TrafficLight::new(10);
    assert!(light.can_pass());
    light.advance_time(9);
    assert!(light.can_pass());
    light.advance_time(1);
    assert!(!light.can_pass());
    assert_eq!(light.time_passed_ms, 0);
    light.advance_time(10);
    assert!(light.can_pass());
    light.force_red();
    assert!(!light.can_pass());
    light.force_green();
    assert!(light.can_pass());
}

#[test]
fn transport_policy_admission_table() {
    assert!(TransportPolicy::Car.can_pass(VehicleType::Car));
    assert!(TransportPolicy::Car.can_pass(VehicleType::Truck));
    assert!(TransportPolicy::Car.can_pass(VehicleType::Ambulance));
    assert!(!TransportPolicy::Car.can_pass(VehicleType::Ship));
    assert!(TransportPolicy::Ship.can_pass(VehicleType::Ship));
    assert!(!TransportPolicy::Ship.can_pass(VehicleType::Car));
    assert!(TransportPolicy::Truck.can_pass(VehicleType::Truck));
    assert!(!TransportPolicy::Truck.can_pass(VehicleType::Car));
    assert!(TransportPolicy::AnyVehicle.can_pass(VehicleType::Ship));
    assert!(!TransportPolicy::NoVehicles.can_pass(VehicleType::Ambulance));
}

#[test]
fn demo_map_holds_all_block_kinds() {
    let map = BlockGrid::map_25x25_with_all_blocks();
    assert_eq!(map.width, 25);
    assert_eq!(map.height, 23);
    assert!(map.in_bounds(Coord::new(0, 0)));
    assert!(!map.in_bounds(Coord::new(25, 0)));

    let plants = map.find_blocks(NuclearPlant);
    assert_eq!(plants.len(), 2);
    assert_eq!(plants[0], Coord::new(14, 17));
    assert_eq!(plants[1], Coord::new(0, 22));

    let bridges = map.find_blocks(Bridge);
    assert_eq!(bridges.len(), 3);
    assert_eq!(map.block_type_at(Coord::new(1, 10)), Some(Bridge));
    // A bridge with traffic lights does not let boats pass beneath, so
    // it admits road traffic only; the free bridge admits anyone.
    assert_eq!(map.policy_at(Coord::new(1, 10)), Some(Car));
    assert_eq!(map.policy_at(Coord::new(11, 10)), Some(AnyVehicle));
    assert_eq!(map.try_plant_status_at(Coord::new(14, 17)), Some(PlantStatus::Stable));
    assert_eq!(map.try_plant_status_at(Coord::new(0, 0)), None);
}

#[test]
fn grid_neighbors_respect_bounds() {
    let map = BlockGrid::map_25x25_with_all_blocks();
    let corner = map.neighbors(Coord::new(0, 0));
    assert_eq!(corner, vec![Coord::new(1, 0), Coord::new(0, 1)]);
    let middle = map.neighbors(Coord::new(3, 3));
    assert_eq!(
        middle,
        vec![Coord::new(4, 3), Coord::new(2, 3), Coord::new(3, 4), Coord::new(3, 2)]
    );
}

#[test]
fn grid_coords_iter_covers_every_cell() {
    let map = BlockGrid::map_25x25_with_all_blocks();
    let coords = map.coords_iter();
    assert_eq!(coords.len(), 25 * 23);
    assert_eq!(coords[0], Coord::new(0, 0));
    assert_eq!(coords[24], Coord::new(24, 0));
    assert_eq!(coords[25], Coord::new(0, 1));
}

#[test]
fn default_city_layout() {
    let map = CityMap::build_default();
    assert_eq!(map.width, 7);
    assert_eq!(map.height, 7);

    // River across the middle row, with bridges at odd columns.
    let b = map.get_block(&Coord::new(1, 3)).unwrap();
    assert_eq!(b.block_type, Bridge);
    let w = map.get_block(&Coord::new(0, 3)).unwrap();
    assert_eq!(w.block_type, Water);
    // Nuclear plants in two corners.
    assert_eq!(map.get_block(&Coord::new(0, 0)).unwrap().block_type, NuclearPlant);
    assert_eq!(map.get_block(&Coord::new(6, 6)).unwrap().block_type, NuclearPlant);
    // Docks below the river on the left.
    assert_eq!(map.get_block(&Coord::new(0, 4)).unwrap().block_type, Dock);
    assert!(map.get_block(&Coord::new(7, 0)).is_none());
}

#[test]
fn occupy_and_release_block() {
    let mut map = CityMap::build_default();
    let c = Coord::new(2, 1);
    assert!(!map.get_block(&c).unwrap().occupied);
    assert!(map.occupy_block(&c));
    assert!(map.get_block(&c).unwrap().occupied);
    assert!(!map.occupy_block(&c), "an occupied block cannot be claimed twice");
    map.release_block(&c);
    assert!(!map.get_block(&c).unwrap().occupied);
    assert!(!map.occupy_block(&Coord::new(-1, 0)));
}

#[test]
fn shortest_path_crosses_the_river() {
    let map = CityMap::build_default();
    let origin = Coord::new(3, 1);
    let dest = Coord::new(3, 5);
    let path = map.shortest_path(origin, dest, VehicleType::Car).expect("a road route exists");
    assert_eq!(path[0], origin);
    assert_eq!(*path.last().unwrap(), dest);
    // Each step is one orthogonal move onto a cell a car may use.
    for w in path.windows(2) {
        let dx = (w[1].x - w[0].x).abs();
        let dy = (w[1].y - w[0].y).abs();
        assert_eq!(dx + dy, 1);
    }
    for c in path.iter().skip(1) {
        assert!(map.is_traversable_for(c, VehicleType::Car));
    }
    // The route must cross the river over a bridge a car can leave.
    assert!(path.contains(&Coord::new(3, 3)) || path.contains(&Coord::new(5, 3)));
}

#[test]
fn shortest_path_reports_unreachable() {
    let map = CityMap::build_default();
    // A ship cannot leave the river for a plain road cell.
    let origin = Coord::new(0, 3);
    let dest = Coord::new(3, 1);
    assert!(map.shortest_path(origin, dest, VehicleType::Ship).is_none());
}
